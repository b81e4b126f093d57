use tracey::clock::Timestamp;
use tracey::idle::{
    get_current_idle_status, idle_status_at, is_idle, parse_resolution, plan_idle_resolution, EntryDetails,
    IdleResolution, IdleResolveError, IdleResolveRequest, IdleTracker,
};
use tracey::idle::{plan_timer_around_idle, RunningTimer};

#[test]
fn idle_at_threshold() {
    assert!(is_idle(300, 300));
    assert!(!is_idle(299, 300));
    assert!(!is_idle(10, -1));
}

#[test]
fn idle_status_reports_start() {
    let now = Timestamp { secs: 1_767_225_600, nanos: 0 };
    let s = idle_status_at(600, 300, now);
    assert!(s.is_idle);
    assert_eq!(s.idle_seconds, 600);
    assert_eq!(s.idle_since.as_deref(), Some("2025-12-31T23:50:00+00:00"));
    let a = idle_status_at(10, 300, now);
    assert!(!a.is_idle);
    assert!(a.idle_since.is_none());
    let live = get_current_idle_status(0, 300).unwrap();
    assert!(!live.is_idle);
}

#[test]
fn tracker_reports_idle_once_with_timer() {
    let mut t = IdleTracker::new();
    let now = Timestamp { secs: 1000, nanos: 5 };
    assert_eq!(t.step(400, 300, true, now), Some(Timestamp { secs: 600, nanos: 5 }));
    assert_eq!(t.step(401, 300, true, now), None);
    assert!(t.is_idle);
    assert_eq!(t.step(0, 300, true, now), None);
    assert_eq!(t, IdleTracker::new());
    assert_eq!(t.step(400, 300, false, now), None);
    assert!(t.is_idle && !t.had_active_timer);
}

#[test]
fn resolutions_are_named() {
    assert_eq!(parse_resolution("keep"), Some(IdleResolution::Keep));
    assert_eq!(parse_resolution("break"), Some(IdleResolution::Break));
    assert_eq!(parse_resolution("meeting"), Some(IdleResolution::Meeting));
    assert_eq!(parse_resolution("specify"), Some(IdleResolution::Specify));
    assert_eq!(parse_resolution("Keep"), None);
}

fn request(resolution: &str, details: Option<EntryDetails>) -> IdleResolveRequest {
    IdleResolveRequest {
        resolution: resolution.into(),
        idle_started_at: "a".into(),
        idle_ended_at: "b".into(),
        entry_details: details,
    }
}

#[test]
fn resolution_plans() {
    assert!(plan_idle_resolution(request("keep", None)).ok().unwrap().is_none());
    let b = plan_idle_resolution(request("break", None)).ok().unwrap().unwrap();
    assert_eq!(b.description, "Break");
    assert!(b.is_break);
    let m = plan_idle_resolution(request("meeting", None)).ok().unwrap().unwrap();
    assert_eq!(m.description, "Meeting");
    assert!(!m.is_break);
    match plan_idle_resolution(request("specify", None)) {
        Err(e) => {
            assert!(matches!(e, IdleResolveError::MissingEntryDetails));
            assert_eq!(e.message(), "specify requires entry_details");
        }
        Ok(_) => panic!("specify without details must fail"),
    }
    let d = EntryDetails { description: "x".into(), project_id: Some("p".into()), task_id: None, tag_ids: vec!["t".into()] };
    let s = plan_idle_resolution(request("specify", Some(d))).ok().unwrap().unwrap();
    assert_eq!(s.project_id.as_deref(), Some("p"));
    assert_eq!(s.tag_ids, vec!["t".to_string()]);
    match plan_idle_resolution(request("nap", None)) {
        Err(e) => assert_eq!(e.message(), "unknown resolution: nap"),
        Ok(_) => panic!("unknown resolution must fail"),
    }
}

#[test]
fn running_timer_is_stopped_and_resumed_around_the_period() {
    let t = RunningTimer {
        id: "e1".into(),
        description: "coding".into(),
        project_id: Some("p".into()),
        task_id: None,
        tag_ids: vec!["t1".into()],
    };
    let plan = plan_timer_around_idle(Some(t), "10:00".into(), "10:30".into());
    assert_eq!(plan.stop, Some(("e1".to_string(), "10:00".to_string())));
    let r = plan.resume.unwrap();
    assert_eq!((r.description.as_str(), r.project_id.as_deref(), r.task_id.as_deref()), ("coding", Some("p"), None));
    assert_eq!(r.tag_ids, vec!["t1".to_string()]);
    assert_eq!(r.started_at, "10:30");
    let none = plan_timer_around_idle(None, "10:00".into(), "10:30".into());
    assert!(none.stop.is_none() && none.resume.is_none());
}
