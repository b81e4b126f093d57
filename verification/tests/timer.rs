use tracey::timer::{
    autocomplete_limit, autocomplete_suggestion, check_references, check_time_range, like_pattern,
    merge_entry_update, overlap_check_required, page_has_more, page_window, timer_stop_outcome,
    validate_timer_description, ActiveTimerResponse, EntryFields, PageWindow, StoppedEntry, TimeEntryUpdateRequest,
    TimerError,
};

#[test]
fn description_rules() {
    assert_eq!(validate_timer_description("", false), Err(TimerError::InvalidDescription));
    assert_eq!(validate_timer_description("", true), Ok(()));
    assert_eq!(validate_timer_description("work", false), Ok(()));
    let long: String = std::iter::repeat('x').take(501).collect();
    assert_eq!(validate_timer_description(&long, true), Err(TimerError::InvalidDescription));
    let exact: String = std::iter::repeat('x').take(500).collect();
    assert_eq!(validate_timer_description(&exact, true), Ok(()));
    let wide: String = std::iter::repeat('é').take(300).collect();
    assert_eq!(validate_timer_description(&wide, true), Ok(()));
    let too_wide: String = std::iter::repeat('é').take(501).collect();
    assert_eq!(validate_timer_description(&too_wide, true), Err(TimerError::InvalidDescription));
    assert_eq!(TimerError::InvalidDescription.code(), "invalid_description");
}

#[test]
fn references_checked_in_order() {
    assert_eq!(check_references(Some(false), Some(false), &vec![false]), Some(TimerError::ProjectNotFound));
    assert_eq!(check_references(None, Some(false), &vec![false]), Some(TimerError::TaskNotFound));
    assert_eq!(check_references(Some(true), Some(true), &vec![true, false]), Some(TimerError::TagNotFound));
    assert_eq!(check_references(Some(true), None, &vec![true]), None);
    assert_eq!(TimerError::TagNotFound.code(), "tag_not_found");
}

#[test]
fn stop_without_timer_is_refused() {
    let r = timer_stop_outcome(None);
    assert!(matches!(r, Err(TimerError::NoActiveTimer)));
    let ok = timer_stop_outcome(Some(StoppedEntry { id: "e".into(), ended_at: "t".into() })).ok().unwrap();
    assert_eq!(ok.id, "e");
    assert_eq!(ok.ended_at, "t");
    assert_eq!(TimerError::NoActiveTimer.code(), "no_active_timer");
}

#[test]
fn no_active_timer_answer_is_empty() {
    let r = ActiveTimerResponse::none();
    assert!(r.id.is_none());
    assert!(r.description.is_empty());
    assert!(r.tag_ids.is_empty());
}

#[test]
fn paging_clamps_and_offsets() {
    assert_eq!(page_window(1, 25), PageWindow { limit: 25, offset: 0 });
    assert_eq!(page_window(3, 25), PageWindow { limit: 25, offset: 50 });
    assert_eq!(page_window(0, 0), PageWindow { limit: 1, offset: 0 });
    assert_eq!(page_window(-5, 1000), PageWindow { limit: 200, offset: 0 });
    assert!(page_has_more(PageWindow { limit: 25, offset: 0 }, 26));
    assert!(!page_has_more(PageWindow { limit: 25, offset: 0 }, 25));
}

#[test]
fn autocomplete_limits_and_pattern() {
    assert_eq!(autocomplete_limit(None), 10);
    assert_eq!(autocomplete_limit(Some(0)), 1);
    assert_eq!(autocomplete_limit(Some(50)), 20);
    assert_eq!(autocomplete_limit(Some(7)), 7);
    assert_eq!(like_pattern("ab"), "%ab%");
}

#[test]
fn orphaned_references_are_dropped() {
    let s = autocomplete_suggestion(
        "d".into(),
        Some("p".into()),
        Some("P".into()),
        Some("t".into()),
        Some("T".into()),
        vec!["g".into()],
        false,
        true,
    );
    assert!(s.is_orphaned);
    assert!(s.project_id.is_none() && s.project_name.is_none());
    assert_eq!(s.task_id.as_deref(), Some("t"));
    assert_eq!(s.tag_ids, vec!["g".to_string()]);
    let k = autocomplete_suggestion("d".into(), None, None, None, None, vec![], false, false);
    assert!(!k.is_orphaned);
}

#[test]
fn time_ranges_compare_as_text() {
    assert_eq!(check_time_range("2026-01-01T10:00:00Z", "2026-01-01T11:00:00Z"), Ok(()));
    assert_eq!(check_time_range("2026-01-01T11:00:00Z", "2026-01-01T11:00:00Z"), Err(TimerError::InvalidTimeRange));
    assert_eq!(check_time_range("b", "a"), Err(TimerError::InvalidTimeRange));
    assert_eq!(check_time_range("a", "ab"), Ok(()));
    assert!(overlap_check_required(None));
    assert!(overlap_check_required(Some(false)));
    assert!(!overlap_check_required(Some(true)));
}

fn current() -> EntryFields {
    EntryFields {
        description: "old".into(),
        project_id: Some("p".into()),
        task_id: Some("t".into()),
        started_at: "2026-01-01T10:00:00Z".into(),
        ended_at: Some("2026-01-01T11:00:00Z".into()),
    }
}

fn request() -> TimeEntryUpdateRequest {
    TimeEntryUpdateRequest {
        id: "e".into(),
        description: None,
        project_id: None,
        task_id: None,
        tag_ids: None,
        started_at: None,
        ended_at: None,
        force: None,
    }
}

#[test]
fn updates_merge_present_fields() {
    let mut r = request();
    r.description = Some("new".into());
    r.task_id = Some(None);
    let m = merge_entry_update(&r, current()).ok().unwrap();
    assert_eq!(m.description, "new");
    assert_eq!(m.project_id.as_deref(), Some("p"));
    assert!(m.task_id.is_none());
    let mut bad = request();
    bad.started_at = Some("2026-01-01T12:00:00Z".into());
    assert!(matches!(merge_entry_update(&bad, current()), Err(TimerError::InvalidTimeRange)));
    let mut running = current();
    running.ended_at = None;
    assert!(merge_entry_update(&bad, running).is_ok());
}

#[test]
fn empty_update_keeps_the_entry() {
    let m = merge_entry_update(&request(), current()).ok().unwrap();
    assert_eq!(m.description, "old");
    assert_eq!(m.project_id.as_deref(), Some("p"));
    assert_eq!(m.task_id.as_deref(), Some("t"));
    assert_eq!(m.started_at, "2026-01-01T10:00:00Z");
    assert_eq!(m.ended_at.as_deref(), Some("2026-01-01T11:00:00Z"));
}

#[test]
fn null_clears_and_value_sets_references() {
    let mut r = request();
    r.project_id = Some(None);
    r.task_id = Some(Some("t2".into()));
    let m = merge_entry_update(&r, current()).ok().unwrap();
    assert!(m.project_id.is_none());
    assert_eq!(m.task_id.as_deref(), Some("t2"));
}

#[test]
fn consecutive_pages_are_adjacent() {
    for size in [0i64, 1, 25, 500] {
        for page in 1i64..5 {
            let a = page_window(page, size);
            let b = page_window(page + 1, size);
            assert_eq!(b.offset, a.offset + a.limit);
            assert_eq!(b.limit, a.limit);
        }
    }
}
