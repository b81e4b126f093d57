//! In-memory queue of low-confidence classifications waiting for the user,
//! with the snooze rules: a dismissed pattern is not asked again within ten
//! minutes, and a pattern dismissed three times is never asked again.

use vstd::prelude::*;
use crate::assoc::{
    assoc, distinct_keys, lemma_assoc_absent, lemma_assoc_domain, lemma_assoc_len,
    lemma_assoc_lookup, lemma_assoc_push_distinct, lemma_assoc_remove, lemma_assoc_update,
};
use crate::clock::{instant_nanos, now, Timestamp};
use crate::text::{chars_of, concat3, lowercase, string_from_chars, to_lowercase};

verus! {

/// Title characters kept in a pattern key.
pub const PATTERN_TITLE_CHARS: usize = 50;

/// Minutes during which a dismissed pattern is not asked again.
pub const SNOOZE_MINUTES: i64 = 10;

/// The snooze window in nanoseconds.
pub const SNOOZE_NANOS: i128 = 600_000_000_000;

/// Dismissals after which a pattern is never asked again.
pub const SNOOZE_CAP: u32 = 3;

/// The pattern key of a window: lowercase process name, `|`, and the
/// lowercase first fifty characters of the title.
pub open spec fn pattern_key(process_name: Seq<char>, window_title: Seq<char>) -> Seq<char> {
    lowercase(process_name) + seq!['|'] + lowercase(window_title.take(
        if window_title.len() < 50 { window_title.len() as int } else { 50 },
    ))
}

/// A pattern key is `"{process_name}|{title_prefix}"`, lowercased, with the
/// title cut at fifty characters.
pub fn make_pattern_key(process_name: &str, window_title: &str) -> (r: String)
    ensures
        r@ == pattern_key(process_name@, window_title@),
{
    let title = chars_of(window_title);
    let mut prefix: Vec<char> = Vec::new();
    let mut i: usize = 0;
    while i < title.len() && i < PATTERN_TITLE_CHARS
        invariant
            i <= title.len(),
            i <= 50,
            prefix@ == title@.take(i as int),
        decreases title.len() - i,
    {
        prefix.push(title[i]);
        i += 1;
        assert(prefix@ =~= title@.take(i as int));
    }
    let prefix_text = string_from_chars(&prefix);
    let lower_process = to_lowercase(process_name);
    let lower_prefix = to_lowercase(prefix_text.as_str());
    let r = concat3(lower_process.as_str(), "|", lower_prefix.as_str());
    proof {
        reveal_strlit("|");
        assert(r@ =~= pattern_key(process_name@, window_title@));
    }
    r
}

/// A window activity record waiting for the user's answer.
pub struct PendingRecord {
    pub war_id: String,
    pub process_name: String,
    pub window_title: String,
    pub ocr_text: Option<String>,
}

/// The snooze state of a pattern: how often it was dismissed and when last.
#[derive(Clone, Copy, PartialEq, Eq, Debug, Structural)]
pub struct SnoozeEntry {
    pub dismissed_count: u32,
    pub last_snoozed_at: Timestamp,
}

/// The snooze entries and pending records, each keyed by text.
pub struct ActiveLearningQueue {
    /// Pattern key → snooze state; no key twice.
    snooze: Vec<(String, SnoozeEntry)>,
    /// Pending records; no war id twice.
    pending: Vec<PendingRecord>,
}

/// The abstract queue: snooze state by pattern key, pending records by war id.
pub struct QueueView {
    pub snooze: Map<Seq<char>, SnoozeEntry>,
    pub pending: Map<Seq<char>, PendingRecord>,
}

/// The snooze list as (key, entry) pairs over text keys.
pub open spec fn snooze_pairs(s: Seq<(String, SnoozeEntry)>) -> Seq<(Seq<char>, SnoozeEntry)> {
    s.map_values(|p: (String, SnoozeEntry)| (p.0@, p.1))
}

/// The pending list as (war id, record) pairs.
pub open spec fn pending_pairs(s: Seq<PendingRecord>) -> Seq<(Seq<char>, PendingRecord)> {
    s.map_values(|r: PendingRecord| (r.war_id@, r))
}

/// Whether a prompt may be shown for a pattern at `now`: yes
/// when never dismissed; no when dismissed three times or more; otherwise
/// only once more than ten minutes have passed since the last dismissal.
pub open spec fn prompt_allowed(snooze: Map<Seq<char>, SnoozeEntry>, key: Seq<char>, now: Timestamp) -> bool {
    if !snooze.contains_key(key) {
        true
    } else {
        let e = snooze[key];
        e.dismissed_count < SNOOZE_CAP && instant_nanos(now) - instant_nanos(e.last_snoozed_at) > SNOOZE_NANOS
    }
}

/// The snooze state after one more dismissal of `key` at `now`.
pub open spec fn dismissed(snooze: Map<Seq<char>, SnoozeEntry>, key: Seq<char>, now: Timestamp) -> Map<Seq<char>, SnoozeEntry> {
    let count = if snooze.contains_key(key) { snooze[key].dismissed_count } else { 0 };
    snooze.insert(key, SnoozeEntry { dismissed_count: (count + 1) as u32, last_snoozed_at: now })
}

impl View for ActiveLearningQueue {
    type V = QueueView;

    closed spec fn view(&self) -> QueueView {
        QueueView { snooze: assoc(snooze_pairs(self.snooze@)), pending: assoc(pending_pairs(self.pending@)) }
    }
}

fn find_pending(list: &Vec<PendingRecord>, war_id: &str) -> (r: Option<usize>)
    ensures
        match r {
            Some(i) => i < list@.len() && list@[i as int].war_id@ == war_id@,
            None => forall|i: int| 0 <= i < list@.len() ==> (#[trigger] list@[i]).war_id@ != war_id@,
        },
{
    let k = chars_of(war_id);
    let mut i: usize = 0;
    while i < list.len()
        invariant
            i <= list@.len(),
            k@ == war_id@,
            forall|j: int| 0 <= j < i ==> (#[trigger] list@[j]).war_id@ != war_id@,
        decreases list.len() - i,
    {
        let c = chars_of(list[i].war_id.as_str());
        if crate::text::same_chars(&c, &k) {
            return Some(i);
        }
        i += 1;
    }
    None
}

impl ActiveLearningQueue {
    /// No key twice in either list.
    #[verifier::type_invariant]
    spec fn well_formed(self) -> bool {
        &&& distinct_keys(snooze_pairs(self.snooze@))
        &&& distinct_keys(pending_pairs(self.pending@))
    }

    /// An empty queue.
    pub fn new() -> (q: Self)
        ensures
            q@.snooze == Map::<Seq<char>, SnoozeEntry>::empty(),
            q@.pending == Map::<Seq<char>, PendingRecord>::empty(),
    {
        let q = ActiveLearningQueue { snooze: Vec::new(), pending: Vec::new() };
        assert(snooze_pairs(q.snooze@) =~= Seq::empty());
        assert(pending_pairs(q.pending@) =~= Seq::empty());
        q
    }

    fn find_snooze(&self, key: &str) -> (r: Option<usize>)
        ensures
            match r {
                Some(i) => i < self.snooze@.len() && self.snooze@[i as int].0@ == key@,
                None => forall|i: int| 0 <= i < self.snooze@.len() ==> (#[trigger] self.snooze@[i]).0@ != key@,
            },
    {
        let k = chars_of(key);
        let mut i: usize = 0;
        while i < self.snooze.len()
            invariant
                i <= self.snooze@.len(),
                k@ == key@,
                forall|j: int| 0 <= j < i ==> (#[trigger] self.snooze@[j]).0@ != key@,
            decreases self.snooze.len() - i,
        {
            let c = chars_of(self.snooze[i].0.as_str());
            if crate::text::same_chars(&c, &k) {
                return Some(i);
            }
            i += 1;
        }
        None
    }

    /// Whether the prompt may be shown for this pattern at `now`.
    pub fn should_prompt_at(&self, pattern_key: &str, now: Timestamp) -> (r: bool)
        ensures
            r == prompt_allowed(self@.snooze, pattern_key@, now),
    {
        proof {
            use_type_invariant(self);
        }
        match self.find_snooze(pattern_key) {
            None => {
                proof {
                    let sp = snooze_pairs(self.snooze@);
                    assert forall|i: int| 0 <= i < sp.len() implies (#[trigger] sp[i]).0 != pattern_key@ by {
                        assert(sp[i].0 == self.snooze@[i].0@);
                    }
                    lemma_assoc_absent(sp, pattern_key@);
                }
                true
            },
            Some(i) => {
                proof {
                    lemma_assoc_lookup(snooze_pairs(self.snooze@), i as int);
                }
                let e = self.snooze[i].1;
                if e.dismissed_count >= SNOOZE_CAP {
                    return false;
                }
                let a: i128 = (now.secs as i128) * crate::clock::NANOS_PER_SEC + (now.nanos as i128);
                let b: i128 = (e.last_snoozed_at.secs as i128) * crate::clock::NANOS_PER_SEC
                    + (e.last_snoozed_at.nanos as i128);
                a - b > SNOOZE_NANOS
            },
        }
    }

    /// Whether the prompt may be shown for this pattern now; `false` while
    /// snoozed (within ten minutes of a dismissal) or permanently suppressed
    /// (three or more dismissals).
    pub fn should_prompt(&self, pattern_key: &str) -> (r: bool)
        ensures
            exists|now: Timestamp| r == prompt_allowed(self@.snooze, pattern_key@, now),
            !self@.snooze.contains_key(pattern_key@) ==> r,
            self@.snooze.contains_key(pattern_key@) && self@.snooze[pattern_key@].dismissed_count >= SNOOZE_CAP ==> !r,
    {
        let now = now();
        self.should_prompt_at(pattern_key, now)
    }

    fn insert_pending(&mut self, record: PendingRecord)
        ensures
            final(self)@.pending == old(self)@.pending.insert(record.war_id@, record),
            final(self)@.snooze == old(self)@.snooze,
    {
        proof {
            use_type_invariant(&*self);
        }
        let mut list: Vec<PendingRecord> = Vec::new();
        std::mem::swap(&mut list, &mut self.pending);
        let ghost old_list = list@;
        let found = find_pending(&list, record.war_id.as_str());
        let ghost key = record.war_id@;
        match found {
            Some(idx) => {
                proof {
                    assert(list@[idx as int].war_id@ == key);
                    assert(pending_pairs(old_list)[idx as int].0 == key);
                    lemma_assoc_update(pending_pairs(old_list), idx as int, record);
                }
                list.set(idx, record);
                proof {
                    assert(pending_pairs(list@) =~= pending_pairs(old_list).update(idx as int, (key, record)));
                }
            },
            None => {
                proof {
                    let pp = pending_pairs(old_list);
                    assert forall|j: int| 0 <= j < pp.len() implies (#[trigger] pp[j]).0 != key by {
                        assert(pp[j].0 == old_list[j].war_id@);
                    }
                    lemma_assoc_push_distinct(pp, key, record);
                }
                list.push(record);
                proof {
                    assert(pending_pairs(list@) =~= pending_pairs(old_list).push((key, record)));
                }
            },
        }
        self.pending = list;
    }

    /// Queue a record for the user when its pattern may be prompted at `now`;
    /// `true` when accepted (the frontend should then be notified).
    pub fn enqueue_at(&mut self, record: PendingRecord, now: Timestamp) -> (accepted: bool)
        ensures
            accepted == prompt_allowed(old(self)@.snooze, pattern_key(record.process_name@, record.window_title@), now),
            accepted ==> final(self)@.pending == old(self)@.pending.insert(record.war_id@, record),
            !accepted ==> final(self)@.pending == old(self)@.pending,
            final(self)@.snooze == old(self)@.snooze,
    {
        let key = make_pattern_key(record.process_name.as_str(), record.window_title.as_str());
        if !self.should_prompt_at(key.as_str(), now) {
            return false;
        }
        self.insert_pending(record);
        true
    }

    /// Queue a record for the user unless its pattern is snoozed or
    /// suppressed; `true` when accepted.
    pub fn enqueue(&mut self, record: PendingRecord) -> (accepted: bool)
        ensures
            exists|now: Timestamp| accepted == prompt_allowed(old(self)@.snooze, pattern_key(record.process_name@, record.window_title@), now),
            accepted ==> final(self)@.pending == old(self)@.pending.insert(record.war_id@, record),
            !accepted ==> final(self)@.pending == old(self)@.pending,
            final(self)@.snooze == old(self)@.snooze,
    {
        let now = now();
        self.enqueue_at(record, now)
    }

    /// Remove a record from the pending queue (answered, or toast closed).
    pub fn dequeue(&mut self, war_id: &str)
        ensures
            final(self)@.pending == old(self)@.pending.remove(war_id@),
            final(self)@.snooze == old(self)@.snooze,
    {
        proof {
            use_type_invariant(&*self);
        }
        match find_pending(&self.pending, war_id) {
            Some(i) => {
                let mut list: Vec<PendingRecord> = Vec::new();
                std::mem::swap(&mut list, &mut self.pending);
                let ghost old_list = list@;
                proof {
                    assert(pending_pairs(old_list)[i as int].0 == war_id@);
                    lemma_assoc_remove(pending_pairs(old_list), i as int);
                }
                let _ = list.remove(i);
                proof {
                    assert(pending_pairs(list@) =~= pending_pairs(old_list).remove(i as int));
                }
                self.pending = list;
            },
            None => {
                proof {
                    let pp = pending_pairs(self.pending@);
                    assert forall|j: int| 0 <= j < pp.len() implies (#[trigger] pp[j]).0 != war_id@ by {
                        assert(pp[j].0 == self.pending@[j].war_id@);
                    }
                    lemma_assoc_absent(pp, war_id@);
                    assert(assoc(pp).remove(war_id@) =~= assoc(pp));
                }
            },
        }
    }

    fn set_snooze(&mut self, key: String, entry: SnoozeEntry)
        ensures
            final(self)@.snooze == old(self)@.snooze.insert(key@, entry),
            final(self)@.pending == old(self)@.pending,
    {
        proof {
            use_type_invariant(&*self);
        }
        let found = self.find_snooze(key.as_str());
        let mut list: Vec<(String, SnoozeEntry)> = Vec::new();
        std::mem::swap(&mut list, &mut self.snooze);
        let ghost old_list = list@;
        let ghost k = key@;
        match found {
            Some(idx) => {
                proof {
                    assert(snooze_pairs(old_list)[idx as int].0 == k);
                    lemma_assoc_update(snooze_pairs(old_list), idx as int, entry);
                }
                list.set(idx, (key, entry));
                proof {
                    assert(snooze_pairs(list@) =~= snooze_pairs(old_list).update(idx as int, (k, entry)));
                }
            },
            None => {
                proof {
                    let sp = snooze_pairs(old_list);
                    assert forall|j: int| 0 <= j < sp.len() implies (#[trigger] sp[j]).0 != k by {
                        assert(sp[j].0 == old_list[j].0@);
                    }
                    lemma_assoc_push_distinct(sp, k, entry);
                }
                list.push((key, entry));
                proof {
                    assert(snooze_pairs(list@) =~= snooze_pairs(old_list).push((k, entry)));
                }
            },
        }
        self.snooze = list;
    }

    /// Record a dismissal of the pattern at `now`: one more
    /// dismissal, last snoozed now.
    pub fn record_dismissal_at(&mut self, pattern_key: &str, now: Timestamp)
        requires
            old(self)@.snooze.contains_key(pattern_key@) ==> old(self)@.snooze[pattern_key@].dismissed_count < u32::MAX,
        ensures
            final(self)@.snooze == dismissed(old(self)@.snooze, pattern_key@, now),
            final(self)@.pending == old(self)@.pending,
    {
        proof {
            use_type_invariant(&*self);
        }
        let count: u32 = match self.find_snooze(pattern_key) {
            Some(i) => {
                proof {
                    lemma_assoc_lookup(snooze_pairs(self.snooze@), i as int);
                }
                self.snooze[i].1.dismissed_count
            },
            None => {
                proof {
                    let sp = snooze_pairs(self.snooze@);
                    assert forall|j: int| 0 <= j < sp.len() implies (#[trigger] sp[j]).0 != pattern_key@ by {
                        assert(sp[j].0 == self.snooze@[j].0@);
                    }
                    lemma_assoc_absent(sp, pattern_key@);
                }
                0
            },
        };
        let key = pattern_key.to_owned();
        self.set_snooze(key, SnoozeEntry { dismissed_count: count + 1, last_snoozed_at: now });
    }

    /// Record a dismissal of the pattern (the user closed the toast without
    /// answering), stamped with the current time.
    pub fn record_dismissal(&mut self, pattern_key: &str)
        requires
            old(self)@.snooze.contains_key(pattern_key@) ==> old(self)@.snooze[pattern_key@].dismissed_count < u32::MAX,
        ensures
            exists|now: Timestamp| final(self)@.snooze == dismissed(old(self)@.snooze, pattern_key@, now),
            final(self)@.pending == old(self)@.pending,
    {
        let now = now();
        self.record_dismissal_at(pattern_key, now);
    }

    /// The number of pending records.
    pub fn pending_count(&self) -> (n: usize)
        ensures
            n == self@.pending.len(),
    {
        proof {
            use_type_invariant(self);
            lemma_assoc_len(pending_pairs(self.pending@));
        }
        self.pending.len()
    }

    /// The snooze state as (pattern key, entry) pairs, for persistence; no
    /// key twice.
    pub fn snooze_state(&self) -> (r: Vec<(String, SnoozeEntry)>)
        ensures
            assoc(snooze_pairs(r@)) == self@.snooze,
            distinct_keys(snooze_pairs(r@)),
    {
        proof {
            use_type_invariant(self);
        }
        let mut out: Vec<(String, SnoozeEntry)> = Vec::new();
        let mut i: usize = 0;
        while i < self.snooze.len()
            invariant
                i <= self.snooze@.len(),
                snooze_pairs(out@) == snooze_pairs(self.snooze@).take(i as int),
            decreases self.snooze.len() - i,
        {
            let k = self.snooze[i].0.clone();
            let e = self.snooze[i].1;
            assert(k == self.snooze@[i as int].0);
            let ghost before = out@;
            out.push((k, e));
            assert(snooze_pairs(out@) =~= snooze_pairs(before).push((k@, e)));
            i += 1;
            assert(snooze_pairs(out@) =~= snooze_pairs(self.snooze@).take(i as int));
        }
        assert(snooze_pairs(self.snooze@).take(self.snooze@.len() as int) =~= snooze_pairs(self.snooze@));
        out
    }

    /// Load persisted snooze state back into the queue (a later entry for the
    /// same key wins).
    pub fn load_snooze_state(&mut self, entries: Vec<(String, SnoozeEntry)>)
        ensures
            final(self)@.snooze == old(self)@.snooze.union_prefer_right(assoc(snooze_pairs(entries@))),
            final(self)@.pending == old(self)@.pending,
    {
        let ghost start = self@.snooze;
        let mut i: usize = 0;
        assert(start.union_prefer_right(assoc(snooze_pairs(entries@).take(0))) =~= start);
        while i < entries.len()
            invariant
                i <= entries@.len(),
                self@.snooze == start.union_prefer_right(assoc(snooze_pairs(entries@).take(i as int))),
                self@.pending == old(self)@.pending,
            decreases entries.len() - i,
        {
            let k = entries[i].0.clone();
            let e = entries[i].1;
            self.set_snooze(k, e);
            proof {
                let pre = snooze_pairs(entries@).take(i as int);
                let post = snooze_pairs(entries@).take(i + 1);
                assert(post.drop_last() =~= pre);
                assert(post.last() == (k@, e));
                assert(self@.snooze =~= start.union_prefer_right(assoc(post)));
            }
            i += 1;
        }
        assert(snooze_pairs(entries@).take(entries@.len() as int) =~= snooze_pairs(entries@));
    }
}

} // verus!

verus! {

/// A pattern that was never dismissed is always prompted.
pub proof fn law_new_pattern_prompts(snooze: Map<Seq<char>, SnoozeEntry>, key: Seq<char>, now: Timestamp)
    requires
        !snooze.contains_key(key),
    ensures
        prompt_allowed(snooze, key, now),
{
}

/// Right after a dismissal the pattern stays snoozed for ten minutes.
pub proof fn law_dismissal_snoozes_for_window(snooze: Map<Seq<char>, SnoozeEntry>, key: Seq<char>, at: Timestamp, now: Timestamp)
    requires
        instant_nanos(now) - instant_nanos(at) <= SNOOZE_NANOS,
    ensures
        !prompt_allowed(dismissed(snooze, key, at), key, now),
{
}

/// Once the snooze window has passed, a pattern dismissed fewer than three
/// times is prompted again.
pub proof fn law_snooze_expires(snooze: Map<Seq<char>, SnoozeEntry>, key: Seq<char>, at: Timestamp, now: Timestamp)
    requires
        !snooze.contains_key(key) || snooze[key].dismissed_count + 1 < SNOOZE_CAP,
        instant_nanos(now) - instant_nanos(at) > SNOOZE_NANOS,
    ensures
        prompt_allowed(dismissed(snooze, key, at), key, now),
{
}

/// Three dismissals of a new pattern suppress it for good, whenever they
/// happened.
pub proof fn law_three_dismissals_suppress(
    snooze: Map<Seq<char>, SnoozeEntry>,
    key: Seq<char>,
    t1: Timestamp,
    t2: Timestamp,
    t3: Timestamp,
    now: Timestamp,
)
    requires
        !snooze.contains_key(key),
    ensures
        !prompt_allowed(dismissed(dismissed(dismissed(snooze, key, t1), key, t2), key, t3), key, now),
{
}

/// Dismissing other patterns does not change whether this one is prompted.
pub proof fn law_dismissal_is_per_pattern(
    snooze: Map<Seq<char>, SnoozeEntry>,
    key: Seq<char>,
    other: Seq<char>,
    at: Timestamp,
    now: Timestamp,
)
    requires
        key != other,
    ensures
        prompt_allowed(dismissed(snooze, other, at), key, now) == prompt_allowed(snooze, key, now),
{
}

/// The persisted snooze state loaded into a fresh queue is the snooze state
/// it was taken from.
pub proof fn law_snooze_state_round_trip(snooze: Map<Seq<char>, SnoozeEntry>, saved: Seq<(String, SnoozeEntry)>)
    requires
        assoc(snooze_pairs(saved)) == snooze,
    ensures
        Map::<Seq<char>, SnoozeEntry>::empty().union_prefer_right(assoc(snooze_pairs(saved))) == snooze,
{
    assert(Map::<Seq<char>, SnoozeEntry>::empty().union_prefer_right(snooze) =~= snooze);
}

/// Taking a record back out after queueing it leaves no record under its id.
pub proof fn law_dequeue_undoes_enqueue(pending: Map<Seq<char>, PendingRecord>, record: PendingRecord)
    ensures
        pending.insert(record.war_id@, record).remove(record.war_id@) == pending.remove(record.war_id@),
        !pending.insert(record.war_id@, record).remove(record.war_id@).contains_key(record.war_id@),
{
    assert(pending.insert(record.war_id@, record).remove(record.war_id@) =~= pending.remove(record.war_id@));
}

} // verus!
