use tracey::activity_tracker::{deny_list_from_json, process_denied, ActivityTracker};
use tracey::classification::ClassificationSource;
use tracey::classification_loop::{
    auto_entry_action, event_page_offset, record_action, should_retrain, source_label, AutoEntryAction, RecordAction,
    PHASE2_MIN_SAMPLES,
};
use tracey::clock::Timestamp;
use tracey::logger::{file_accepts, file_log_line, level_str_to_u8, log_level_to_u8, update_logging_settings, LogLevel};
use tracey::preferences::{apply_preferences_update, default_preferences, PreferencesUpdateRequest};
use tracey::screenshot::{
    make_screenshot_filename, retention_cutoff, screenshot_filename_for, window_key, CaptureTrigger, ScreenshotScheduler,
};
use tracey::timer_tick::{elapsed_seconds, elapsed_seconds_at};

#[test]
fn retrain_threshold_requires_10_new_samples_since_last_train() {
    let conn = rusqlite::Connection::open_in_memory().unwrap();
    conn.execute_batch(
        "CREATE TABLE labeled_samples (
            id TEXT PRIMARY KEY, feature_text TEXT NOT NULL,
            process_name TEXT NOT NULL, window_title TEXT NOT NULL,
            client_id TEXT, project_id TEXT, task_id TEXT,
            source TEXT NOT NULL, device_id TEXT NOT NULL,
            created_at TEXT NOT NULL, modified_at TEXT NOT NULL DEFAULT (datetime('now')),
            synced_at TEXT
        );",
    )
    .unwrap();
    let count = |c: &rusqlite::Connection| -> i64 {
        c.query_row("SELECT COUNT(*) FROM labeled_samples", [], |r| r.get(0)).unwrap_or(0)
    };
    let sample_count_at_last_train = 5i64;
    for i in 0..9 {
        conn.execute(
            &format!(
                "INSERT INTO labeled_samples \
                 (id,feature_text,process_name,window_title,source,device_id,created_at,modified_at) \
                 VALUES ('s{i}','feat','app','title','user_confirmed','dev',datetime('now'),datetime('now'))"
            ),
            [],
        )
        .unwrap();
    }
    let total = count(&conn);
    assert!(!should_retrain(total, sample_count_at_last_train), "9 new samples should not trigger retrain");
    conn.execute(
        "INSERT INTO labeled_samples \
         (id,feature_text,process_name,window_title,source,device_id,created_at,modified_at) \
         VALUES ('s9','feat','app','title','user_confirmed','dev',datetime('now'),datetime('now'))",
        [],
    )
    .unwrap();
    let total = count(&conn);
    assert_eq!(should_retrain(total, sample_count_at_last_train), total >= PHASE2_MIN_SAMPLES);
}

#[test]
fn retrain_needs_batch_and_minimum() {
    assert!(should_retrain(20, 10));
    assert!(!should_retrain(19, 0));
    assert!(!should_retrain(25, 16));
}

#[test]
fn record_actions() {
    assert_eq!(record_action(0, 1_000_000, 700_000), RecordAction::MarkOnly);
    assert_eq!(record_action(1, 700_000, 700_000), RecordAction::AutoEntry);
    assert_eq!(record_action(1, 699_999, 700_000), RecordAction::AskUser);
    assert_eq!(source_label(ClassificationSource::TfIdf), "tf_idf");
    assert_eq!(source_label(ClassificationSource::Heuristic), "heuristic");
    assert_eq!(source_label(ClassificationSource::Unclassified), "unclassified");
    assert_eq!(event_page_offset(2, 50), 100);
}

#[test]
fn auto_entries_group_within_gap() {
    let latest = Some(("e1".to_string(), "2026-01-01T10:00:00+00:00".to_string()));
    match auto_entry_action(latest.clone(), "2026-01-01T10:02:00Z", 120) {
        AutoEntryAction::Extend(id) => assert_eq!(id, "e1"),
        AutoEntryAction::Create => panic!("within gap must extend"),
    }
    assert!(matches!(auto_entry_action(latest.clone(), "2026-01-01T10:02:01Z", 120), AutoEntryAction::Create));
    assert!(matches!(auto_entry_action(latest.clone(), "2026-01-01T09:59:59Z", 120), AutoEntryAction::Create));
    assert!(matches!(auto_entry_action(latest, "garbage", 120), AutoEntryAction::Create));
    assert!(matches!(auto_entry_action(None, "2026-01-01T10:02:00Z", 120), AutoEntryAction::Create));
}

#[test]
fn logging_levels_and_lines() {
    assert_eq!(log_level_to_u8(LogLevel::Error), 1);
    assert_eq!(log_level_to_u8(LogLevel::Trace), 4);
    assert_eq!(level_str_to_u8("WARNING"), 2);
    assert_eq!(level_str_to_u8("warn"), 2);
    assert_eq!(level_str_to_u8("Trace"), 4);
    assert_eq!(level_str_to_u8("verbose"), 3);
    let s = update_logging_settings(true, "warn");
    assert!(file_accepts(s, LogLevel::Error));
    assert!(!file_accepts(s, LogLevel::Info));
    assert!(!file_accepts(update_logging_settings(false, "trace"), LogLevel::Error));
    assert_eq!(
        file_log_line("T", LogLevel::Info, "app", "say \"hi\""),
        "{\"ts\":\"T\",\"level\":\"INFO\",\"component\":\"app\",\"message\":\"say \\\"hi\\\"\"}"
    );
}

#[test]
fn preference_defaults_and_updates() {
    let d = default_preferences();
    assert_eq!(d.inactivity_timeout_seconds, 300);
    assert_eq!(f64::from_bits(d.timer_notification_threshold_hours_bits), 8.0);
    assert_eq!(d.process_deny_list_json, r#"["keepass","1password","bitwarden","lastpass"]"#);
    let u = PreferencesUpdateRequest {
        local_timezone: Some("Europe/Paris".into()),
        inactivity_timeout_seconds: None,
        screenshot_interval_seconds: Some(60),
        screenshot_retention_days: None,
        screenshot_storage_path: None,
        timer_notification_threshold_hours_bits: Some(2.5f64.to_bits()),
        page_size: None,
        external_db_enabled: Some(true),
        notification_channels_json: Some("[]".into()),
        process_deny_list_json: None,
    };
    let p = apply_preferences_update(default_preferences(), u);
    assert_eq!(p.local_timezone, "Europe/Paris");
    assert_eq!(p.screenshot_interval_seconds, 60);
    assert_eq!(p.inactivity_timeout_seconds, 300);
    assert_eq!(f64::from_bits(p.timer_notification_threshold_hours_bits), 2.5);
    assert!(p.external_db_enabled && !p.external_db_uri_stored);
    assert_eq!(p.notification_channels_json.as_deref(), Some("[]"));
}

#[test]
fn screenshot_names_and_schedule() {
    assert_eq!(screenshot_filename_for("01ABC"), "01abc.jpg");
    let f = make_screenshot_filename();
    assert_eq!(f.len(), 30);
    assert!(f.ends_with(".jpg"));
    assert_eq!(window_key("code", "main"), "code|main");
    let s = 1_000_000_000u64;
    let mut sched = ScreenshotScheduler::new(0);
    assert_eq!(sched.decide_capture(Some("a".into()), s, 60), None);
    assert_eq!(sched.decide_capture(Some("a".into()), 2 * s, 60), None);
    assert_eq!(sched.decide_capture(Some("a".into()), 3 * s, 60), Some(CaptureTrigger::WindowChange));
    assert_eq!(sched.decide_capture(Some("a".into()), 4 * s, 60), None);
    assert_eq!(sched.decide_capture(Some("a".into()), 60 * s, 60), Some(CaptureTrigger::Interval));
    assert_eq!(CaptureTrigger::WindowChange.name(), "window_change");
    assert_eq!(CaptureTrigger::Interval.name(), "interval");
    let mut c = ScreenshotScheduler::new(0);
    let mut due = 0;
    for _ in 0..7200 {
        if c.count_tick() {
            due += 1;
        }
    }
    assert_eq!(due, 2);
    let cut = retention_cutoff(Timestamp { secs: 3 * 86_400, nanos: 7 }, 2);
    assert_eq!(cut, Timestamp { secs: 86_400, nanos: 7 });
}

#[test]
fn timer_tick_elapsed() {
    let now = Timestamp { secs: 1_767_225_660, nanos: 500_000_000 };
    assert_eq!(elapsed_seconds_at("2026-01-01T00:00:00Z", now), 60);
    assert_eq!(elapsed_seconds_at("2026-01-01T00:02:00Z", now), 0);
    assert_eq!(elapsed_seconds_at("nope", now), 0);
    assert!(elapsed_seconds("2000-01-01T00:00:00Z") > 0);
}

#[test]
fn deny_list_applies_before_storage() {
    let deny = deny_list_from_json(r#"["keepass","1Password"]"#);
    assert!(process_denied("KeePassXC.exe", &deny));
    assert!(process_denied("1password.exe", &deny));
    assert!(!process_denied("code.exe", &deny));
    assert!(deny_list_from_json("not json").is_empty());
    let mut t = ActivityTracker::new();
    assert!(!t.is_change(&None));
    let w = Some(("keepass.exe".to_string(), "db".to_string()));
    assert!(t.is_change(&w));
    let denied = t.observe_change(w.clone(), &deny).unwrap();
    assert_eq!(denied.process_name, "keepass.exe");
    assert_eq!(denied.window_title, "[REDACTED]");
    assert_eq!(denied.window_handle, "keepass.exe:[REDACTED]");
    assert!(!t.is_change(&w));
    let c = Some(("code.exe".to_string(), "main".to_string()));
    let plan = t.observe_change(c, &deny).unwrap();
    assert_eq!(plan.window_handle, "code.exe:main");
    assert_eq!(plan.window_title, "main");
    assert!(t.is_change(&None));
    assert!(t.observe_change(None, &deny).is_none());
}

#[test]
fn bgra_pixels_become_rgb() {
    let bgra = vec![10u8, 20, 30, 255, 1, 2, 3, 0, 9];
    assert_eq!(tracey::frame::bgra_to_rgb(&bgra), vec![30u8, 20, 10, 3, 2, 1]);
    assert!(tracey::frame::bgra_to_rgb(&[1u8, 2, 3]).is_empty());
}

#[test]
fn long_titles_are_cut_to_500_characters() {
    let long: String = std::iter::repeat('é').take(620).collect();
    let cut = tracey::activity_tracker::truncate_title(&long);
    assert_eq!(cut.chars().count(), 500);
    assert!(long.starts_with(&cut));
    assert_eq!(tracey::activity_tracker::truncate_title("short"), "short");
    let mut t = ActivityTracker::new();
    let plan = t.observe_change(Some(("code.exe".to_string(), long.clone())), &vec![]).unwrap();
    assert_eq!(plan.window_title, cut);
}

#[test]
fn frames_are_stored_as_half_size_jpeg() {
    let bgra = [128u8, 128, 128, 255].repeat(8 * 6);
    let jpeg = tracey::frame::encode_bgra_frame(&bgra, 8, 6).unwrap();
    assert_eq!(&jpeg[..2], &[0xFFu8, 0xD8]);
    let img = image::load_from_memory(&jpeg).unwrap();
    assert_eq!((img.width(), img.height()), (4, 3));
    assert!(tracey::frame::encode_bgra_frame(&bgra[..10], 8, 6).is_none());
}

#[test]
fn log_messages_are_quoted_by_serde_json() {
    for m in ["plain", "quote \" and backslash \\", "tab\tline\nfeed\r", "\u{8}\u{c}\u{1}", "é / 😀", ""] {
        let line = file_log_line("T", LogLevel::Warn, "c", m);
        let expected = format!(
            "{{\"ts\":\"T\",\"level\":\"WARN\",\"component\":\"c\",\"message\":{}}}",
            serde_json::to_string(m).unwrap()
        );
        assert_eq!(line, expected);
    }
}
