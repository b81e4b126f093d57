use tracey::active_learning_queue::{make_pattern_key, ActiveLearningQueue, PendingRecord, SnoozeEntry, SNOOZE_CAP};
use tracey::clock::Timestamp;

fn snooze_count(q: &ActiveLearningQueue, key: &str) -> Option<u32> {
    q.snooze_state().iter().find(|(k, _)| k == key).map(|(_, e)| e.dismissed_count)
}

#[test]
fn new_pattern_should_prompt() {
    let q = ActiveLearningQueue::new();
    assert!(q.should_prompt("code|tracey"));
}

#[test]
fn snoozed_pattern_suppressed_within_window() {
    let mut q = ActiveLearningQueue::new();
    q.record_dismissal("code|tracey");
    assert!(!q.should_prompt("code|tracey"));
}

#[test]
fn permanently_suppressed_after_cap() {
    let mut q = ActiveLearningQueue::new();
    for _ in 0..SNOOZE_CAP {
        q.record_dismissal("code|tracey");
    }
    assert!(!q.should_prompt("code|tracey"));
}

#[test]
fn enqueue_accepts_new_pattern() {
    let mut q = ActiveLearningQueue::new();
    let accepted = q.enqueue(PendingRecord {
        war_id: "id1".into(),
        process_name: "Code".into(),
        window_title: "tracey".into(),
        ocr_text: None,
    });
    assert!(accepted);
    assert_eq!(q.pending_count(), 1);
}

#[test]
fn enqueue_rejects_snoozed_pattern() {
    let mut q = ActiveLearningQueue::new();
    q.record_dismissal(&make_pattern_key("Code", "tracey"));
    let accepted = q.enqueue(PendingRecord {
        war_id: "id1".into(),
        process_name: "Code".into(),
        window_title: "tracey".into(),
        ocr_text: None,
    });
    assert!(!accepted);
    assert_eq!(q.pending_count(), 0);
}

#[test]
fn dequeue_removes_record() {
    let mut q = ActiveLearningQueue::new();
    q.enqueue(PendingRecord { war_id: "id1".into(), process_name: "X".into(), window_title: "Y".into(), ocr_text: None });
    q.dequeue("id1");
    assert_eq!(q.pending_count(), 0);
}

#[test]
fn dismiss_increments_snooze_count() {
    let mut alq = ActiveLearningQueue::new();
    let key = "code|tracey";
    alq.record_dismissal(key);
    assert_eq!(snooze_count(&alq, key), Some(1));
    alq.record_dismissal(key);
    assert_eq!(snooze_count(&alq, key), Some(2));
}

#[test]
fn pattern_key_lowercases_and_cuts_title() {
    assert_eq!(make_pattern_key("Code", "Tracey"), "code|tracey");
    let long: String = std::iter::repeat('A').take(60).collect();
    let key = make_pattern_key("P", &long);
    assert_eq!(key.len(), 2 + 50);
}

#[test]
fn snooze_expires_after_ten_minutes() {
    let mut q = ActiveLearningQueue::new();
    let t0 = Timestamp { secs: 1_000_000, nanos: 0 };
    q.record_dismissal_at("k", t0);
    assert!(!q.should_prompt_at("k", Timestamp { secs: 1_000_600, nanos: 0 }));
    assert!(q.should_prompt_at("k", Timestamp { secs: 1_000_600, nanos: 1 }));
    q.record_dismissal_at("k", t0);
    q.record_dismissal_at("k", t0);
    assert!(!q.should_prompt_at("k", Timestamp { secs: 9_000_000, nanos: 0 }));
}

#[test]
fn snooze_state_round_trips() {
    let mut q = ActiveLearningQueue::new();
    q.record_dismissal_at("a", Timestamp { secs: 5, nanos: 0 });
    q.record_dismissal_at("b", Timestamp { secs: 6, nanos: 0 });
    let saved = q.snooze_state();
    let mut fresh = ActiveLearningQueue::new();
    fresh.load_snooze_state(saved.clone());
    let mut again = fresh.snooze_state();
    let mut orig = saved;
    again.sort_by(|x, y| x.0.cmp(&y.0));
    orig.sort_by(|x, y| x.0.cmp(&y.0));
    assert_eq!(again, orig);
    let loaded = vec![("c".to_string(), SnoozeEntry { dismissed_count: 3, last_snoozed_at: Timestamp { secs: 0, nanos: 0 } })];
    fresh.load_snooze_state(loaded);
    assert!(!fresh.should_prompt("c"));
}

#[test]
fn enqueue_same_id_replaces() {
    let mut q = ActiveLearningQueue::new();
    q.enqueue(PendingRecord { war_id: "id1".into(), process_name: "X".into(), window_title: "Y".into(), ocr_text: None });
    q.enqueue(PendingRecord { war_id: "id1".into(), process_name: "Z".into(), window_title: "W".into(), ocr_text: None });
    assert_eq!(q.pending_count(), 1);
    q.dequeue("other");
    assert_eq!(q.pending_count(), 1);
}
