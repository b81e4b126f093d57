use tracey::sync::{delete_queue_action, QueueAction};
use tracey::sync::{
    delete_retryable, delete_target, plan_sync_cycle, row_device_id, sync_status, trigger_uri, validate_sync_uri,
    DeleteTarget, SyncCyclePlan, SyncState, SyncTally, SyncUriError,
};

#[test]
fn uris_must_name_postgres() {
    assert_eq!(validate_sync_uri("  postgres://h/db ").ok(), Some("postgres://h/db".to_string()));
    assert!(validate_sync_uri("postgresql://h").is_ok());
    assert_eq!(validate_sync_uri("mysql://h").err(), Some(SyncUriError::InvalidUri));
    assert_eq!(
        SyncUriError::InvalidUri.message(),
        "invalid_uri: must begin with postgres:// or postgresql://"
    );
}

#[test]
fn state_follows_configuration_and_cycles() {
    let mut s = SyncState::new();
    s.configured("postgres://h".into());
    assert!(s.connected && s.cached_uri.as_deref() == Some("postgres://h") && s.last_sync_cursor.is_none());
    s.synced("t1".into(), "c1".into());
    assert_eq!(s.last_sync_cursor.as_deref(), Some("c1"));
    s.failed("boom".into());
    assert!(!s.connected);
    let st = sync_status(true, 4, &s);
    assert!(st.enabled && !st.connected && st.pending_queue_size == 4);
    assert_eq!(st.last_error.as_deref(), Some("boom"));
    assert_eq!(st.last_sync_at.as_deref(), Some("t1"));
    s.disable();
    assert!(s.cached_uri.is_none() && s.last_error.is_none());
}

#[test]
fn cycles_need_enabled_sync_and_uri() {
    assert!(matches!(plan_sync_cycle(false, &Some("u".into())), SyncCyclePlan::Skip));
    assert!(matches!(plan_sync_cycle(true, &None), SyncCyclePlan::Skip));
    match plan_sync_cycle(true, &Some("u".into())) {
        SyncCyclePlan::Run(u) => assert_eq!(u, "u"),
        SyncCyclePlan::Skip => panic!("must run"),
    }
    assert_eq!(trigger_uri(&Some("c".into()), Err("k".into())), Ok("c".to_string()));
    assert_eq!(trigger_uri(&None, Err("k".into())), Err("k".to_string()));
}

#[test]
fn delete_queue_targets() {
    assert_eq!(delete_target("clients"), Some(DeleteTarget::Clients));
    assert_eq!(delete_target("tags"), Some(DeleteTarget::Tags));
    assert_eq!(delete_target("projects"), Some(DeleteTarget::Projects));
    assert_eq!(delete_target("tasks"), Some(DeleteTarget::Tasks));
    assert_eq!(delete_target("time_entries"), None);
    assert!(delete_retryable(4));
    assert!(!delete_retryable(5));
    assert_eq!(row_device_id(String::new(), "here"), "here");
    assert_eq!(row_device_id("dev".into(), "here"), "dev");
}

#[test]
fn tally_keeps_the_first_failure() {
    let mut t = SyncTally::new(String::new());
    assert_eq!((t.synced(), t.errors()), (0, 0));
    t.record_sent();
    t.record_silent_failure();
    assert_eq!(t.first_error(), None);
    t.record_failure("clients/a: refused".to_string());
    t.record_sent();
    t.record_failed_row("tags/b: refused".to_string(), "2026-01-02T00:00:00Z");
    assert_eq!((t.synced(), t.errors()), (2, 3));
    assert_eq!(t.first_error().as_deref(), Some("clients/a: refused"));
}

#[test]
fn tally_cursor_moves_to_the_latest_row_sent() {
    let mut t = SyncTally::new("2026-01-01T00:00:00Z".to_string());
    t.record_synced_row("2026-01-03T00:00:00Z");
    t.record_synced_row("2026-01-02T00:00:00Z");
    t.record_sent();
    t.record_failure("preferences: refused".to_string());
    assert_eq!(t.next_cursor(), "2026-01-03T00:00:00Z");
    assert_eq!(t.synced(), 3);
    let fresh = SyncTally::new("2026-01-01T00:00:00Z".to_string());
    assert_eq!(fresh.next_cursor(), "2026-01-01T00:00:00Z");
}

#[test]
fn tally_cursor_stops_before_rows_not_sent() {
    let mut t = SyncTally::new(String::new());
    t.record_failed_row("clients/x: refused".to_string(), "a");
    t.record_synced_row("b");
    assert_eq!(t.next_cursor(), "a");
    let mut u = SyncTally::new(String::new());
    u.record_synced_row("2026-01-05T00:00:00Z");
    u.record_deferred_row("2026-01-03T00:00:00Z");
    u.record_synced_row("2026-01-02T00:00:00Z");
    u.record_failed_row("tags/y: refused".to_string(), "2026-01-04T00:00:00Z");
    assert_eq!(u.next_cursor(), "2026-01-03T00:00:00Z");
}

#[test]
fn queued_deletes_leave_when_sent_or_unknown() {
    assert_eq!(delete_queue_action(None, false), QueueAction::Remove);
    assert_eq!(delete_queue_action(Some(DeleteTarget::Tags), true), QueueAction::Remove);
    assert_eq!(delete_queue_action(Some(DeleteTarget::Tasks), false), QueueAction::CountAttempt);
}
