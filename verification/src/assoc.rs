//! Association lists keyed by text: the map a list of (key, value) pairs
//! stands for, and how list edits change that map.

use vstd::prelude::*;

verus! {

/// The map given by inserting the pairs in order (a later pair wins).
pub open spec fn assoc<V>(s: Seq<(Seq<char>, V)>) -> Map<Seq<char>, V>
    decreases s.len(),
{
    if s.len() == 0 {
        Map::empty()
    } else {
        assoc(s.drop_last()).insert(s.last().0, s.last().1)
    }
}

/// No key occurs twice.
pub open spec fn distinct_keys<V>(s: Seq<(Seq<char>, V)>) -> bool {
    forall|i: int, j: int| 0 <= i < j < s.len() ==> (#[trigger] s[i]).0 != (#[trigger] s[j]).0
}

pub proof fn lemma_assoc_domain<V>(s: Seq<(Seq<char>, V)>)
    ensures
        forall|k: Seq<char>| assoc(s).contains_key(k) <==> exists|i: int| 0 <= i < s.len() && (#[trigger] s[i]).0 == k,
        assoc(s).dom().finite(),
    decreases s.len(),
{
    if s.len() > 0 {
        let p = s.drop_last();
        lemma_assoc_domain(p);
        assert forall|k: Seq<char>| assoc(s).contains_key(k) <==> exists|i: int| 0 <= i < s.len() && (#[trigger] s[i]).0 == k by {
            if assoc(s).contains_key(k) && k != s.last().0 {
                let i = choose|i: int| 0 <= i < p.len() && (#[trigger] p[i]).0 == k;
                assert(s[i] == p[i]);
            }
            if exists|i: int| 0 <= i < s.len() && (#[trigger] s[i]).0 == k {
                let i = choose|i: int| 0 <= i < s.len() && (#[trigger] s[i]).0 == k;
                if i < s.len() - 1 {
                    assert(p[i] == s[i]);
                }
            }
        }
    }
}

pub proof fn lemma_assoc_lookup<V>(s: Seq<(Seq<char>, V)>, i: int)
    requires
        distinct_keys(s),
        0 <= i < s.len(),
    ensures
        assoc(s).contains_key(s[i].0),
        assoc(s)[s[i].0] == s[i].1,
    decreases s.len(),
{
    if i < s.len() - 1 {
        let p = s.drop_last();
        assert(p[i] == s[i]);
        assert(s[i].0 != s[s.len() - 1].0);
        lemma_assoc_lookup(p, i);
    }
}

pub proof fn lemma_assoc_update<V>(s: Seq<(Seq<char>, V)>, i: int, v: V)
    requires
        0 <= i < s.len(),
        distinct_keys(s),
    ensures
        assoc(s.update(i, (s[i].0, v))) == assoc(s).insert(s[i].0, v),
        distinct_keys(s.update(i, (s[i].0, v))),
    decreases s.len(),
{
    let k = s[i].0;
    let u = s.update(i, (k, v));
    if i == s.len() - 1 {
        assert(u.drop_last() =~= s.drop_last());
        assert(assoc(u) =~= assoc(s).insert(k, v));
    } else {
        let p = s.drop_last();
        lemma_assoc_update(p, i, v);
        assert(u.drop_last() =~= p.update(i, (k, v)));
        assert(s.last().0 != k);
        assert(assoc(u) =~= assoc(s).insert(k, v));
    }
}

pub proof fn lemma_assoc_remove<V>(s: Seq<(Seq<char>, V)>, i: int)
    requires
        0 <= i < s.len(),
        distinct_keys(s),
    ensures
        assoc(s.remove(i)) == assoc(s).remove(s[i].0),
        distinct_keys(s.remove(i)),
    decreases s.len(),
{
    let k = s[i].0;
    let r = s.remove(i);
    assert forall|a: int, b: int| 0 <= a < b < r.len() implies (#[trigger] r[a]).0 != (#[trigger] r[b]).0 by {
        let a2 = if a < i { a } else { a + 1 };
        let b2 = if b < i { b } else { b + 1 };
        assert(r[a] == s[a2]);
        assert(r[b] == s[b2]);
    }
    if i == s.len() - 1 {
        assert(r =~= s.drop_last());
        lemma_assoc_domain(s.drop_last());
        assert(!assoc(s.drop_last()).contains_key(k)) by {
            if assoc(s.drop_last()).contains_key(k) {
                let j = choose|j: int| 0 <= j < s.drop_last().len() && (#[trigger] s.drop_last()[j]).0 == k;
                assert(s[j].0 == k);
            }
        }
        assert(assoc(r) =~= assoc(s).remove(k));
    } else {
        let p = s.drop_last();
        lemma_assoc_remove(p, i);
        assert(r.drop_last() =~= p.remove(i));
        assert(r.last() == s.last());
        assert(s.last().0 != k);
        assert(assoc(r) =~= assoc(s).remove(k));
    }
}

pub proof fn lemma_assoc_absent<V>(s: Seq<(Seq<char>, V)>, k: Seq<char>)
    requires
        forall|i: int| 0 <= i < s.len() ==> (#[trigger] s[i]).0 != k,
    ensures
        !assoc(s).contains_key(k),
{
    lemma_assoc_domain(s);
}

pub proof fn lemma_assoc_push_distinct<V>(s: Seq<(Seq<char>, V)>, k: Seq<char>, v: V)
    requires
        distinct_keys(s),
        forall|i: int| 0 <= i < s.len() ==> (#[trigger] s[i]).0 != k,
    ensures
        distinct_keys(s.push((k, v))),
        assoc(s.push((k, v))) == assoc(s).insert(k, v),
{
    assert(s.push((k, v)).drop_last() =~= s);
}

pub proof fn lemma_assoc_len<V>(s: Seq<(Seq<char>, V)>)
    requires
        distinct_keys(s),
    ensures
        assoc(s).len() == s.len(),
    decreases s.len(),
{
    if s.len() > 0 {
        let p = s.drop_last();
        lemma_assoc_len(p);
        lemma_assoc_domain(p);
        assert(!assoc(p).contains_key(s.last().0)) by {
            if assoc(p).contains_key(s.last().0) {
                let j = choose|j: int| 0 <= j < p.len() && (#[trigger] p[j]).0 == s.last().0;
                assert(s[j].0 == s[s.len() - 1].0);
            }
        }
    }
}

} // verus!
