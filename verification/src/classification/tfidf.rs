//! Bag-of-words side of the TF-IDF classifier: tokenization, vocabulary,
//! document frequencies and term counts.

use vstd::prelude::*;
use super::{ClassLabel, clone_opt_text};
use crate::text::{
    char_alphanumeric, chars_of, is_alphanumeric, longer_than_one_byte, lowercase, runs,
    same_chars, split_runs, to_lowercase, utf8_len, char_views, string_views, strings_from_runs,
};

verus! {

/// Words that carry no topic and are dropped from token lists.
pub open spec fn stopwords() -> Seq<Seq<char>> {
    seq![
        "the"@, "a"@, "an"@, "and"@, "or"@, "but"@, "in"@, "on"@, "at"@, "to"@, "for"@, "of"@,
        "with"@, "by"@, "from"@, "is"@, "was"@, "are"@, "be"@, "has"@, "have"@, "do"@, "did"@,
        "not"@, "this"@, "that"@, "it"@, "its"@,
    ]
}

fn stopword_texts() -> (r: Vec<&'static str>)
    ensures
        r@.map_values(|s: &str| s@) == stopwords(),
{
    let r = vec![
        "the", "a", "an", "and", "or", "but", "in", "on", "at", "to", "for", "of",
        "with", "by", "from", "is", "was", "are", "be", "has", "have", "do", "did",
        "not", "this", "that", "it", "its",
    ];
    assert(r@.map_values(|s: &str| s@) =~= stopwords());
    r
}

/// Whether a token is a stopword.
pub fn is_stopword(t: &Vec<char>) -> (r: bool)
    ensures
        r == stopwords().contains(t@),
{
    let words = stopword_texts();
    let mut i: usize = 0;
    while i < words.len()
        invariant
            i <= words.len(),
            words@.map_values(|s: &str| s@) == stopwords(),
            forall|j: int| 0 <= j < i ==> stopwords()[j] != t@,
        decreases words.len() - i,
    {
        let w = chars_of(words[i]);
        if same_chars(&w, t) {
            assert(stopwords()[i as int] == t@);
            return true;
        }
        i += 1;
    }
    false
}


/// Marks the characters that are not alphanumeric.
pub open spec fn non_alnum_marks(s: Seq<char>) -> Seq<bool> {
    Seq::new(s.len(), |i: int| !char_alphanumeric(s[i]))
}

/// A word is kept as a token when it takes more than one byte and is not a
/// stopword.
pub open spec fn keep_token(w: Seq<char>) -> bool {
    utf8_len(w) > 1 && !stopwords().contains(w)
}

/// The words that are kept as tokens, in order.
pub open spec fn kept_tokens(ws: Seq<Seq<char>>) -> Seq<Seq<char>>
    decreases ws.len(),
{
    if ws.len() == 0 {
        seq![]
    } else if keep_token(ws.last()) {
        kept_tokens(ws.drop_last()).push(ws.last())
    } else {
        kept_tokens(ws.drop_last())
    }
}

/// The tokens of a text: its lowercase form split at every non-alphanumeric
/// character, keeping the pieces longer than one byte that are not stopwords.
pub open spec fn tokens(text: Seq<char>) -> Seq<Seq<char>> {
    let l = lowercase(text);
    kept_tokens(runs(l, non_alnum_marks(l)))
}

/// Split a text into lowercase tokens as described by `tokens`.
pub fn tokenize(text: &str) -> (r: Vec<String>)
    ensures
        string_views(r@) == tokens(text@),
{
    let lower = to_lowercase(text);
    let cs = chars_of(lower.as_str());
    let mut cut: Vec<bool> = Vec::new();
    let mut i: usize = 0;
    while i < cs.len()
        invariant
            i <= cs.len(),
            cs@ == lowercase(text@),
            cut@ == non_alnum_marks(cs@).take(i as int),
        decreases cs.len() - i,
    {
        let a = is_alphanumeric(cs[i]);
        cut.push(!a);
        i += 1;
        assert(cut@ =~= non_alnum_marks(cs@).take(i as int));
    }
    assert(cut@ =~= non_alnum_marks(cs@));
    let pieces = split_runs(&cs, &cut);
    let mut kept: Vec<Vec<char>> = Vec::new();
    let mut j: usize = 0;
    while j < pieces.len()
        invariant
            j <= pieces.len(),
            char_views(kept@) == kept_tokens(char_views(pieces@).take(j as int)),
        decreases pieces.len() - j,
    {
        let ghost ws = char_views(pieces@).take(j + 1);
        assert(ws.drop_last() =~= char_views(pieces@).take(j as int));
        assert(ws.last() == pieces@[j as int]@);
        let long = longer_than_one_byte(&pieces[j]);
        let stop = is_stopword(&pieces[j]);
        if long && !stop {
            let ghost before = kept@;
            kept.push(pieces[j].clone());
            assert(char_views(kept@) =~= char_views(before).push(pieces@[j as int]@));
        }
        j += 1;
    }
    assert(char_views(pieces@).take(pieces.len() as int) =~= char_views(pieces@));
    strings_from_runs(&kept)
}


// ── Vocabulary, frequencies and counts ──────────────────────────────────────

/// The token lists of several documents, as character sequences.
pub open spec fn doc_views(docs: Seq<Vec<String>>) -> Seq<Seq<Seq<char>>> {
    docs.map_values(|d: Vec<String>| string_views(d@))
}

/// All tokens of all documents, in order.
pub open spec fn all_tokens(docs: Seq<Seq<Seq<char>>>) -> Seq<Seq<char>>
    decreases docs.len(),
{
    if docs.len() == 0 {
        seq![]
    } else {
        all_tokens(docs.drop_last()) + docs.last()
    }
}

/// The distinct terms of a token sequence, in order of first appearance.
pub open spec fn first_occurrences(ts: Seq<Seq<char>>) -> Seq<Seq<char>>
    decreases ts.len(),
{
    if ts.len() == 0 {
        seq![]
    } else {
        let v = first_occurrences(ts.drop_last());
        if v.contains(ts.last()) {
            v
        } else {
            v.push(ts.last())
        }
    }
}

/// The vocabulary of a set of documents: their distinct tokens in order of
/// first appearance; a term's position is its index.
pub open spec fn vocabulary_of(docs: Seq<Seq<Seq<char>>>) -> Seq<Seq<char>> {
    first_occurrences(all_tokens(docs))
}

/// How many times `t` occurs in `ts`.
pub open spec fn occurrences(ts: Seq<Seq<char>>, t: Seq<char>) -> nat
    decreases ts.len(),
{
    if ts.len() == 0 {
        0
    } else {
        occurrences(ts.drop_last(), t) + if ts.last() == t { 1nat } else { 0nat }
    }
}

/// How many documents contain `t`.
pub open spec fn documents_containing(docs: Seq<Seq<Seq<char>>>, t: Seq<char>) -> nat
    decreases docs.len(),
{
    if docs.len() == 0 {
        0
    } else {
        documents_containing(docs.drop_last(), t) + if docs.last().contains(t) { 1nat } else { 0nat }
    }
}

proof fn lemma_first_occurrences_distinct(ts: Seq<Seq<char>>)
    ensures
        first_occurrences(ts).no_duplicates(),
        forall|t: Seq<char>| first_occurrences(ts).contains(t) <==> ts.contains(t),
    decreases ts.len(),
{
    if ts.len() > 0 {
        let p = ts.drop_last();
        lemma_first_occurrences_distinct(p);
        let v = first_occurrences(p);
        assert forall|t: Seq<char>| first_occurrences(ts).contains(t) <==> ts.contains(t) by {
            if ts.contains(t) {
                let k = choose|k: int| 0 <= k < ts.len() && ts[k] == t;
                if k < ts.len() - 1 {
                    assert(p[k] == t);
                    assert(p.contains(t));
                    assert(v.contains(t));
                    if !v.contains(ts.last()) {
                        let m = choose|m: int| 0 <= m < v.len() && v[m] == t;
                        assert(v.push(ts.last())[m] == t);
                    }
                } else {
                    if !v.contains(ts.last()) {
                        assert(v.push(ts.last())[v.len() as int] == t);
                    }
                }
            }
            if first_occurrences(ts).contains(t) {
                if v.contains(t) {
                    assert(p.contains(t));
                    let k = choose|k: int| 0 <= k < p.len() && p[k] == t;
                    assert(ts[k] == t);
                } else {
                    assert(!v.contains(ts.last()));
                    let m = choose|m: int| 0 <= m < v.len() + 1 && v.push(ts.last())[m] == t;
                    if m < v.len() {
                        assert(v[m] == t);
                    }
                    assert(t == ts.last());
                    assert(ts[ts.len() - 1] == t);
                }
            }
        }
    }
}

proof fn lemma_occurrences_bound(ts: Seq<Seq<char>>, t: Seq<char>)
    ensures
        occurrences(ts, t) <= ts.len(),
    decreases ts.len(),
{
    if ts.len() > 0 {
        lemma_occurrences_bound(ts.drop_last(), t);
    }
}

proof fn lemma_documents_bound(docs: Seq<Seq<Seq<char>>>, t: Seq<char>)
    ensures
        documents_containing(docs, t) <= docs.len(),
    decreases docs.len(),
{
    if docs.len() > 0 {
        lemma_documents_bound(docs.drop_last(), t);
    }
}

/// Position of a term in a list of terms.
pub fn position_of(list: &Vec<String>, t: &String) -> (r: Option<usize>)
    ensures
        match r {
            Some(i) => i < list.len() && list@[i as int]@ == t@
                && forall|j: int| 0 <= j < i ==> list@[j]@ != t@,
            None => !string_views(list@).contains(t@),
        },
{
    let mut i: usize = 0;
    while i < list.len()
        invariant
            i <= list.len(),
            forall|j: int| 0 <= j < i ==> list@[j]@ != t@,
        decreases list.len() - i,
    {
        if list[i] == *t {
            return Some(i);
        }
        i += 1;
    }
    assert forall|j: int| 0 <= j < string_views(list@).len() implies string_views(list@)[j] != t@ by {
        assert(string_views(list@)[j] == list@[j]@);
    }
    None
}

/// The vocabulary of tokenized documents: their distinct tokens in order of
/// first appearance.
pub fn build_vocabulary(docs: &Vec<Vec<String>>) -> (r: Vec<String>)
    ensures
        string_views(r@) == vocabulary_of(doc_views(docs@)),
{
    let mut vocab: Vec<String> = Vec::new();
    let mut d: usize = 0;
    while d < docs.len()
        invariant
            d <= docs.len(),
            string_views(vocab@) == first_occurrences(all_tokens(doc_views(docs@).take(d as int))),
        decreases docs.len() - d,
    {
        let doc = &docs[d];
        let ghost prefix = all_tokens(doc_views(docs@).take(d as int));
        let mut j: usize = 0;
        while j < doc.len()
            invariant
                d < docs.len(),
                doc == &docs@[d as int],
                j <= doc.len(),
                prefix == all_tokens(doc_views(docs@).take(d as int)),
                string_views(vocab@) == first_occurrences(prefix + string_views(doc@).take(j as int)),
            decreases doc.len() - j,
        {
            let ghost seen = prefix + string_views(doc@).take(j as int);
            let ghost next = prefix + string_views(doc@).take(j + 1);
            assert(next.drop_last() =~= seen);
            assert(next.last() == doc@[j as int]@);
            match position_of(&vocab, &doc[j]) {
                Some(p) => {
                    assert(string_views(vocab@)[p as int] == doc@[j as int]@);
                    assert(string_views(vocab@).contains(doc@[j as int]@));
                },
                None => {
                    let ghost before = vocab@;
                    vocab.push(doc[j].clone());
                    assert(string_views(vocab@) =~= string_views(before).push(doc@[j as int]@));
                },
            }
            j += 1;
        }
        proof {
            let dv = doc_views(docs@);
            assert(dv.take(d + 1).drop_last() =~= dv.take(d as int));
            assert(dv.take(d + 1).last() == string_views(doc@));
            assert(string_views(doc@).take(doc.len() as int) =~= string_views(doc@));
        }
        d += 1;
    }
    assert(doc_views(docs@).take(docs.len() as int) =~= doc_views(docs@));
    vocab
}

fn count_term(tokens: &Vec<String>, t: &String) -> (r: usize)
    ensures
        r == occurrences(string_views(tokens@), t@),
{
    let mut n: usize = 0;
    let mut i: usize = 0;
    while i < tokens.len()
        invariant
            i <= tokens.len(),
            n == occurrences(string_views(tokens@).take(i as int), t@),
            n <= i,
        decreases tokens.len() - i,
    {
        let ghost ts = string_views(tokens@).take(i + 1);
        assert(ts.drop_last() =~= string_views(tokens@).take(i as int));
        assert(ts.last() == tokens@[i as int]@);
        if tokens[i] == *t {
            n += 1;
        }
        i += 1;
    }
    assert(string_views(tokens@).take(tokens.len() as int) =~= string_views(tokens@));
    n
}

/// How many times each vocabulary term occurs in a token list.
pub fn term_counts(vocabulary: &Vec<String>, tokens: &Vec<String>) -> (r: Vec<usize>)
    ensures
        r.len() == vocabulary.len(),
        forall|i: int| 0 <= i < r.len() ==> r@[i] == occurrences(string_views(tokens@), #[trigger] vocabulary@[i]@),
{
    let mut out: Vec<usize> = Vec::new();
    let mut i: usize = 0;
    while i < vocabulary.len()
        invariant
            i <= vocabulary.len(),
            out.len() == i,
            forall|k: int| 0 <= k < i ==> out@[k] == occurrences(string_views(tokens@), #[trigger] vocabulary@[k]@),
        decreases vocabulary.len() - i,
    {
        let c = count_term(tokens, &vocabulary[i]);
        out.push(c);
        i += 1;
    }
    out
}

fn doc_contains(tokens: &Vec<String>, t: &String) -> (r: bool)
    ensures
        r == string_views(tokens@).contains(t@),
{
    match position_of(tokens, t) {
        Some(i) => {
            assert(string_views(tokens@)[i as int] == t@);
            true
        },
        None => false,
    }
}

/// For each vocabulary term, how many documents contain it.
pub fn document_frequencies(vocabulary: &Vec<String>, docs: &Vec<Vec<String>>) -> (r: Vec<usize>)
    ensures
        r.len() == vocabulary.len(),
        forall|i: int| 0 <= i < r.len() ==> r@[i] == documents_containing(doc_views(docs@), #[trigger] vocabulary@[i]@),
{
    let mut out: Vec<usize> = Vec::new();
    let mut i: usize = 0;
    while i < vocabulary.len()
        invariant
            i <= vocabulary.len(),
            out.len() == i,
            forall|k: int| 0 <= k < i ==> out@[k] == documents_containing(doc_views(docs@), #[trigger] vocabulary@[k]@),
        decreases vocabulary.len() - i,
    {
        let t = &vocabulary[i];
        let mut n: usize = 0;
        let mut d: usize = 0;
        while d < docs.len()
            invariant
                d <= docs.len(),
                t == &vocabulary@[i as int],
                n == documents_containing(doc_views(docs@).take(d as int), t@),
                n <= d,
            decreases docs.len() - d,
        {
            let ghost dv = doc_views(docs@).take(d + 1);
            assert(dv.drop_last() =~= doc_views(docs@).take(d as int));
            assert(dv.last() == string_views(docs@[d as int]@));
            if doc_contains(&docs[d], t) {
                n += 1;
            }
            d += 1;
        }
        assert(doc_views(docs@).take(docs.len() as int) =~= doc_views(docs@));
        out.push(n);
        i += 1;
    }
    out
}


// ── Training data ───────────────────────────────────────────────────────────

/// A labeled sample: feature text and the client/project/task it belongs to.
pub struct TrainingSample {
    pub text: String,
    pub client_id: Option<String>,
    pub project_id: Option<String>,
    pub task_id: Option<String>,
}

/// An optional id as text; absent ids are empty.
pub open spec fn id_text(o: Option<String>) -> Seq<char> {
    match o {
        Some(s) => s@,
        None => Seq::<char>::empty(),
    }
}

/// The class key of a label: client, project and task ids joined by `|`.
pub open spec fn class_key_of(client_id: Option<String>, project_id: Option<String>, task_id: Option<String>) -> Seq<char> {
    id_text(client_id) + seq!['|'] + id_text(project_id) + seq!['|'] + id_text(task_id)
}

/// The class key of a sample.
pub open spec fn sample_key(s: TrainingSample) -> Seq<char> {
    class_key_of(s.client_id, s.project_id, s.task_id)
}

/// The label of a sample.
pub open spec fn sample_label(s: TrainingSample) -> ClassLabel {
    ClassLabel { client_id: s.client_id, project_id: s.project_id, task_id: s.task_id }
}

/// The token lists of the samples' texts.
pub open spec fn training_docs(samples: Seq<TrainingSample>) -> Seq<Seq<Seq<char>>> {
    Seq::new(samples.len(), |i: int| tokens(samples[i].text@))
}

fn id_or_empty(o: &Option<String>) -> (r: &str)
    ensures
        r@ == id_text(*o),
{
    match o {
        Some(s) => s.as_str(),
        None => {
            proof {
                reveal_strlit("");
            }
            ""
        },
    }
}

/// The class key of a label: `client|project|task`, absent ids empty.
pub fn class_key(client_id: &Option<String>, project_id: &Option<String>, task_id: &Option<String>) -> (r: String)
    ensures
        r@ == class_key_of(*client_id, *project_id, *task_id),
{
    let mut k = String::new();
    k.append(id_or_empty(client_id));
    crate::text::push_char(&mut k, '|');
    k.append(id_or_empty(project_id));
    crate::text::push_char(&mut k, '|');
    k.append(id_or_empty(task_id));
    assert(k@ =~= class_key_of(*client_id, *project_id, *task_id));
    k
}

/// The classes of the samples: each distinct class key once, in order of
/// first appearance, paired with the label of the first sample carrying it.
pub open spec fn classes_of(samples: Seq<TrainingSample>) -> Seq<(Seq<char>, ClassLabel)>
    decreases samples.len(),
{
    if samples.len() == 0 {
        seq![]
    } else {
        let v = classes_of(samples.drop_last());
        let s = samples.last();
        if exists|k: int| 0 <= k < v.len() && (#[trigger] v[k]).0 == sample_key(s) {
            v
        } else {
            v.push((sample_key(s), sample_label(s)))
        }
    }
}

/// Pairs each class key with its label.
pub open spec fn key_label_pairs(keys: Seq<String>, labels: Seq<ClassLabel>) -> Seq<(Seq<char>, ClassLabel)> {
    Seq::new(keys.len(), |k: int| (keys[k]@, labels[k]))
}

/// The class keys and labels are those of the samples, and every sample
/// points at the position of its class.
pub open spec fn classes_ok(
    samples: Seq<TrainingSample>,
    keys: Seq<String>,
    labels: Seq<ClassLabel>,
    classes: Seq<usize>,
) -> bool {
    &&& labels.len() == keys.len()
    &&& key_label_pairs(keys, labels) == classes_of(samples)
    &&& classes.len() == samples.len()
    &&& classes_point_to_keys(samples, keys, classes)
}

/// Every sample's class position holds its class key.
pub open spec fn classes_point_to_keys(samples: Seq<TrainingSample>, keys: Seq<String>, classes: Seq<usize>) -> bool {
    forall|i: int| 0 <= i < samples.len() ==> #[trigger] class_points_to_key(samples, keys, classes, i)
}

/// Sample `i`'s class position holds its class key.
pub open spec fn class_points_to_key(samples: Seq<TrainingSample>, keys: Seq<String>, classes: Seq<usize>, i: int) -> bool {
    classes[i] < keys.len() && keys[classes[i] as int]@ == sample_key(samples[i])
}

proof fn lemma_point_push(
    pre: Seq<TrainingSample>,
    smp: TrainingSample,
    old_keys: Seq<String>,
    keys: Seq<String>,
    old_classes: Seq<usize>,
    c: usize,
)
    requires
        classes_point_to_keys(pre, old_keys, old_classes),
        old_classes.len() == pre.len(),
        keys.len() >= old_keys.len(),
        forall|k: int| 0 <= k < old_keys.len() ==> keys[k] == old_keys[k],
        c < keys.len(),
        keys[c as int]@ == sample_key(smp),
    ensures
        classes_point_to_keys(pre.push(smp), keys, old_classes.push(c)),
{
    let post = pre.push(smp);
    let cs = old_classes.push(c);
    assert forall|i: int| 0 <= i < post.len() implies #[trigger] class_points_to_key(post, keys, cs, i) by {
        if i < pre.len() {
            assert(post[i] == pre[i]);
            assert(class_points_to_key(pre, old_keys, old_classes, i));
            assert(cs[i] == old_classes[i]);
            assert(old_keys[old_classes[i] as int]@ == sample_key(pre[i]));
        } else {
            assert(cs[i] == c);
        }
    }
}

/// Group the samples into classes as described by `classes_ok`.
pub fn group_classes(samples: &[TrainingSample]) -> (r: (Vec<String>, Vec<ClassLabel>, Vec<usize>))
    ensures
        classes_ok(samples@, r.0@, r.1@, r.2@),
{
    let mut keys: Vec<String> = Vec::new();
    let mut labels: Vec<ClassLabel> = Vec::new();
    let mut classes: Vec<usize> = Vec::new();
    let mut s: usize = 0;
    assert(key_label_pairs(keys@, labels@) =~= classes_of(samples@.take(0)));
    while s < samples.len()
        invariant
            s <= samples.len(),
            classes_ok(samples@.take(s as int), keys@, labels@, classes@),
        decreases samples.len() - s,
    {
        let smp = &samples[s];
        let key = class_key(&smp.client_id, &smp.project_id, &smp.task_id);
        let ghost pre = samples@.take(s as int);
        let ghost post = samples@.take(s + 1);
        let ghost v = classes_of(pre);
        let ghost old_keys = keys@;
        let ghost old_classes = classes@;
        assert(post.drop_last() =~= pre);
        assert(post.last() == *smp);
        let c: usize;
        match position_of(&keys, &key) {
            Some(p) => {
                proof {
                    assert(v[p as int].0 == sample_key(*smp));
                    assert(classes_of(post) == v);
                }
                c = p;
            },
            None => {
                proof {
                    assert forall|k: int| 0 <= k < v.len() implies (#[trigger] v[k]).0 != sample_key(*smp) by {
                        assert(v[k].0 == string_views(keys@)[k]);
                    }
                    assert(classes_of(post) == v.push((sample_key(*smp), sample_label(*smp))));
                }
                let label = ClassLabel {
                    client_id: clone_opt_text(&smp.client_id),
                    project_id: clone_opt_text(&smp.project_id),
                    task_id: clone_opt_text(&smp.task_id),
                };
                c = keys.len();
                keys.push(key);
                labels.push(label);
                assert(key_label_pairs(keys@, labels@) =~= v.push((sample_key(*smp), sample_label(*smp))));
            },
        }
        classes.push(c);
        proof {
            assert(c < keys@.len() && keys@[c as int]@ == sample_key(*smp));
            assert(forall|k: int| 0 <= k < old_keys.len() ==> keys@[k] == old_keys[k]);
            lemma_point_push(pre, *smp, old_keys, keys@, old_classes, c);
            assert(post == pre.push(*smp));
            assert(classes@ == old_classes.push(c));
            assert(classes_point_to_keys(post, keys@, classes@));
            assert(labels@.len() == keys@.len());
            assert(key_label_pairs(keys@, labels@) == classes_of(post));
            assert(classes@.len() == post.len());
            assert(classes_ok(post, keys@, labels@, classes@));
        }
        s += 1;
    }
    assert(samples@.take(samples.len() as int) =~= samples@);
    (keys, labels, classes)
}

/// What training needs beyond floating-point arithmetic: the vocabulary,
/// each term's document frequency, each sample's term counts and token
/// total, and the classes.
pub struct TrainingSet {
    /// Distinct tokens in order of first appearance; a term's index is its position.
    pub vocabulary: Vec<String>,
    /// For each term, the number of samples whose tokens contain it.
    pub document_frequencies: Vec<usize>,
    /// For each sample, the number of occurrences of each term.
    pub term_counts: Vec<Vec<usize>>,
    /// For each sample, the number of its tokens.
    pub token_totals: Vec<usize>,
    /// Distinct class keys in order of first appearance.
    pub class_keys: Vec<String>,
    /// For each class, the label of its first sample.
    pub class_labels: Vec<ClassLabel>,
    /// For each sample, the position of its class.
    pub sample_classes: Vec<usize>,
}

/// The training set is the bag-of-words description of the samples.
pub open spec fn training_set_of(t: TrainingSet, samples: Seq<TrainingSample>) -> bool {
    let docs = training_docs(samples);
    &&& string_views(t.vocabulary@) == vocabulary_of(docs)
    &&& t.document_frequencies.len() == t.vocabulary.len()
    &&& forall|i: int| 0 <= i < t.vocabulary.len() ==> t.document_frequencies@[i]
            == documents_containing(docs, #[trigger] t.vocabulary@[i]@)
    &&& t.term_counts.len() == samples.len()
    &&& t.token_totals.len() == samples.len()
    &&& forall|s: int| 0 <= s < samples.len() ==> t.token_totals@[s] == (#[trigger] docs[s]).len()
    &&& forall|s: int| 0 <= s < samples.len() ==> (#[trigger] t.term_counts@[s]).len() == t.vocabulary.len()
    &&& forall|s: int, i: int| 0 <= s < samples.len() && 0 <= i < t.vocabulary.len()
            ==> (#[trigger] t.term_counts@[s])@[i] == occurrences(docs[s], #[trigger] t.vocabulary@[i]@)
    &&& classes_ok(samples, t.class_keys@, t.class_labels@, t.sample_classes@)
}

/// Prepare the bag-of-words training data; `None` when there are no samples
/// or no sample has any token.
pub fn prepare_training(samples: &[TrainingSample]) -> (r: Option<TrainingSet>)
    ensures
        r is None <==> (samples@.len() == 0 || vocabulary_of(training_docs(samples@)).len() == 0),
        r matches Some(t) ==> training_set_of(t, samples@),
{
    if samples.len() == 0 {
        return None;
    }
    let mut docs: Vec<Vec<String>> = Vec::new();
    let mut i: usize = 0;
    while i < samples.len()
        invariant
            i <= samples.len(),
            doc_views(docs@) == training_docs(samples@).take(i as int),
        decreases samples.len() - i,
    {
        let toks = tokenize(samples[i].text.as_str());
        let ghost before = docs@;
        docs.push(toks);
        assert(doc_views(docs@) =~= doc_views(before).push(string_views(toks@)));
        i += 1;
        assert(doc_views(docs@) =~= training_docs(samples@).take(i as int));
    }
    assert(doc_views(docs@) =~= training_docs(samples@));
    let vocabulary = build_vocabulary(&docs);
    if vocabulary.len() == 0 {
        return None;
    }
    let document_frequencies = document_frequencies(&vocabulary, &docs);
    let mut counts: Vec<Vec<usize>> = Vec::new();
    let mut totals: Vec<usize> = Vec::new();
    let mut s: usize = 0;
    while s < docs.len()
        invariant
            s <= docs.len(),
            docs.len() == samples.len(),
            doc_views(docs@) == training_docs(samples@),
            counts.len() == s,
            totals.len() == s,
            forall|k: int| 0 <= k < s ==> totals@[k] == (#[trigger] training_docs(samples@)[k]).len(),
            forall|k: int| 0 <= k < s ==> (#[trigger] counts@[k]).len() == vocabulary.len(),
            forall|k: int, j: int| 0 <= k < s && 0 <= j < vocabulary.len()
                ==> (#[trigger] counts@[k])@[j] == occurrences(training_docs(samples@)[k], #[trigger] vocabulary@[j]@),
        decreases docs.len() - s,
    {
        assert(doc_views(docs@)[s as int] == string_views(docs@[s as int]@));
        let c = term_counts(&vocabulary, &docs[s]);
        counts.push(c);
        totals.push(docs[s].len());
        s += 1;
    }
    let (class_keys, class_labels, sample_classes) = group_classes(samples);
    Some(TrainingSet {
        vocabulary,
        document_frequencies,
        term_counts: counts,
        token_totals: totals,
        class_keys,
        class_labels,
        sample_classes,
    })
}

/// The counts of each vocabulary term in a query text and the number of its
/// tokens; `None` when the text has no token.
pub fn query_counts(vocabulary: &Vec<String>, text: &str) -> (r: Option<(Vec<usize>, usize)>)
    ensures
        r is None <==> tokens(text@).len() == 0,
        r matches Some(q) ==> {
            &&& q.1 == tokens(text@).len()
            &&& q.0.len() == vocabulary.len()
            &&& forall|i: int| 0 <= i < q.0.len() ==> q.0@[i] == occurrences(tokens(text@), #[trigger] vocabulary@[i]@)
        },
{
    let toks = tokenize(text);
    if toks.len() == 0 {
        return None;
    }
    let counts = term_counts(vocabulary, &toks);
    Some((counts, toks.len()))
}

} // verus!
