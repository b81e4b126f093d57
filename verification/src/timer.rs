//! Timer and time-entry rules: description limits, paging, autocomplete
//! suggestions, time ranges and partial updates.

use vstd::prelude::*;
use crate::classification::clone_opt_text;
use crate::text::{copy_text, less_text, text_less};

verus! {

/// Longest description accepted, in characters.
pub const MAX_DESCRIPTION_CHARS: usize = 500;

/// Why a timer or time-entry request is refused.
#[derive(Clone, Copy, PartialEq, Eq, Debug, Structural)]
pub enum TimerError {
    InvalidDescription,
    ProjectNotFound,
    TaskNotFound,
    TagNotFound,
    NoActiveTimer,
    InvalidTimeRange,
    OverlapDetected,
    SourceEntryNotFound,
    EntryNotFound,
}

/// The error code of a timer error.
pub open spec fn timer_error_code(e: TimerError) -> Seq<char> {
    match e {
        TimerError::InvalidDescription => "invalid_description"@,
        TimerError::ProjectNotFound => "project_not_found"@,
        TimerError::TaskNotFound => "task_not_found"@,
        TimerError::TagNotFound => "tag_not_found"@,
        TimerError::NoActiveTimer => "no_active_timer"@,
        TimerError::InvalidTimeRange => "invalid_time_range"@,
        TimerError::OverlapDetected => "overlap_detected"@,
        TimerError::SourceEntryNotFound => "source_entry_not_found"@,
        TimerError::EntryNotFound => "entry_not_found"@,
    }
}

impl TimerError {
    /// The error code the frontend receives.
    pub fn code(&self) -> (r: &'static str)
        ensures
            r@ == timer_error_code(*self),
    {
        match self {
            TimerError::InvalidDescription => "invalid_description",
            TimerError::ProjectNotFound => "project_not_found",
            TimerError::TaskNotFound => "task_not_found",
            TimerError::TagNotFound => "tag_not_found",
            TimerError::NoActiveTimer => "no_active_timer",
            TimerError::InvalidTimeRange => "invalid_time_range",
            TimerError::OverlapDetected => "overlap_detected",
            TimerError::SourceEntryNotFound => "source_entry_not_found",
            TimerError::EntryNotFound => "entry_not_found",
        }
    }
}

// ── Starting a timer ────────────────────────────────────────────────────────

/// A request to start a timer.
pub struct TimerStartRequest {
    pub description: String,
    pub project_id: Option<String>,
    pub task_id: Option<String>,
    pub tag_ids: Vec<String>,
}

/// A running entry that was stopped, and when.
pub struct StoppedEntry {
    pub id: String,
    pub ended_at: String,
}

/// A started timer, and the entry it stopped, if any.
pub struct TimerStartResponse {
    pub id: String,
    pub started_at: String,
    pub stopped_entry: Option<StoppedEntry>,
}

/// A description is refused when it is empty without a project (the project
/// then names the work) or longer than 500 characters.
pub open spec fn description_refused(description: &str, has_project: bool) -> bool {
    (description@.len() == 0 && !has_project) || description@.len() > 500
}

/// Check a timer description.
pub fn validate_timer_description(description: &str, has_project: bool) -> (r: Result<(), TimerError>)
    ensures
        r is Err <==> description_refused(description, has_project),
        r matches Err(e) ==> e == TimerError::InvalidDescription,
{
    let chars = crate::text::chars_of(description);
    if (chars.len() == 0 && !has_project) || chars.len() > MAX_DESCRIPTION_CHARS {
        Err(TimerError::InvalidDescription)
    } else {
        Ok(())
    }
}

/// The first reference of a start request that does not exist: the project,
/// then the task, then the tags in order; `None` when all exist. Each flag
/// tells whether the referenced row exists (absent references are `None`).
pub open spec fn missing_reference(project: Option<bool>, task: Option<bool>, tags: Seq<bool>) -> Option<TimerError> {
    if project == Some(false) {
        Some(TimerError::ProjectNotFound)
    } else if task == Some(false) {
        Some(TimerError::TaskNotFound)
    } else if exists|i: int| 0 <= i < tags.len() && !tags[i] {
        Some(TimerError::TagNotFound)
    } else {
        None
    }
}

/// The refusal a start request gets for its references, if any.
pub fn check_references(project: Option<bool>, task: Option<bool>, tags: &Vec<bool>) -> (r: Option<TimerError>)
    ensures
        r == missing_reference(project, task, tags@),
{
    if let Some(false) = project {
        return Some(TimerError::ProjectNotFound);
    }
    if let Some(false) = task {
        return Some(TimerError::TaskNotFound);
    }
    let mut i: usize = 0;
    while i < tags.len()
        invariant
            i <= tags.len(),
            project != Some(false),
            task != Some(false),
            forall|k: int| 0 <= k < i ==> tags@[k],
        decreases tags.len() - i,
    {
        if !tags[i] {
            assert(!tags@[i as int]);
            return Some(TimerError::TagNotFound);
        }
        i += 1;
    }
    None
}

/// The answer to a stop request: the stopped entry, or `no_active_timer`.
pub struct TimerStopResponse {
    pub id: String,
    pub ended_at: String,
}

/// Stopping answers with the entry that was running, or refuses when none was.
pub fn timer_stop_outcome(stopped: Option<StoppedEntry>) -> (r: Result<TimerStopResponse, TimerError>)
    ensures
        stopped is None <==> r == Err::<TimerStopResponse, TimerError>(TimerError::NoActiveTimer),
        stopped matches Some(s) ==> r matches Ok(t) && t.id == s.id && t.ended_at == s.ended_at,
{
    match stopped {
        Some(s) => Ok(TimerStopResponse { id: s.id, ended_at: s.ended_at }),
        None => Err(TimerError::NoActiveTimer),
    }
}

/// The running timer, or an empty answer (no id) when none runs.
pub struct ActiveTimerResponse {
    pub id: Option<String>,
    pub description: String,
    pub started_at: String,
    pub project_id: Option<String>,
    pub task_id: Option<String>,
    pub tag_ids: Vec<String>,
}

impl ActiveTimerResponse {
    /// The answer when no timer runs: no id, empty texts, no references.
    pub fn none() -> (r: Self)
        ensures
            r.id is None,
            r.description@.len() == 0,
            r.started_at@.len() == 0,
            r.project_id is None,
            r.task_id is None,
            r.tag_ids@.len() == 0,
    {
        ActiveTimerResponse {
            id: None,
            description: String::new(),
            started_at: String::new(),
            project_id: None,
            task_id: None,
            tag_ids: Vec::new(),
        }
    }
}

// ── Listing ─────────────────────────────────────────────────────────────────

/// A request for one page of finished entries (pages count from 1).
pub struct TimeEntryListRequest {
    pub page: i64,
    pub page_size: i64,
}

/// A finished entry as listed, with its project, client, task and tags.
pub struct TimeEntryListItem {
    pub id: String,
    pub description: String,
    pub started_at: String,
    pub ended_at: String,
    pub project_id: Option<String>,
    pub project_name: Option<String>,
    pub client_name: Option<String>,
    pub task_id: Option<String>,
    pub task_name: Option<String>,
    pub tag_ids: Vec<String>,
    pub tag_names: Vec<String>,
    pub is_break: bool,
}

/// One page of entries, the total, and whether more follow.
pub struct TimeEntryListResponse {
    pub entries: Vec<TimeEntryListItem>,
    pub total_count: i64,
    pub has_more: bool,
}

/// Rows to read and rows to skip for a page.
#[derive(Clone, Copy, PartialEq, Eq, Debug, Structural)]
pub struct PageWindow {
    pub limit: i64,
    pub offset: i64,
}

/// `v` clamped into `[lo, hi]`.
pub open spec fn clamp(v: int, lo: int, hi: int) -> int {
    if v < lo {
        lo
    } else if v > hi {
        hi
    } else {
        v
    }
}

/// The page size clamped to 1..=200, and the offset of the page (pages
/// before the first count as the first).
pub open spec fn page_window_of(page: int, page_size: int) -> (int, int) {
    let limit = clamp(page_size, 1, 200);
    let before = if page - 1 > 0 { page - 1 } else { 0 };
    (limit, before * limit)
}

fn clamp_i64(v: i64, lo: i64, hi: i64) -> (r: i64)
    requires
        lo <= hi,
    ensures
        r == clamp(v as int, lo as int, hi as int),
{
    if v < lo {
        lo
    } else if v > hi {
        hi
    } else {
        v
    }
}

/// The rows of a page of finished entries.
pub fn page_window(page: i64, page_size: i64) -> (r: PageWindow)
    requires
        page > i64::MIN,
        page_window_of(page as int, page_size as int).1 <= i64::MAX,
    ensures
        (r.limit as int, r.offset as int) == page_window_of(page as int, page_size as int),
{
    let limit = clamp_i64(page_size, 1, 200);
    let prev = page - 1;
    let before = if prev > 0 { prev } else { 0 };
    assert(before * limit <= i64::MAX);
    PageWindow { limit, offset: before * limit }
}

/// Whether entries follow the page.
pub fn page_has_more(window: PageWindow, total_count: i64) -> (r: bool)
    requires
        i64::MIN <= window.offset + window.limit <= i64::MAX,
    ensures
        r == (window.offset + window.limit < total_count),
{
    window.offset + window.limit < total_count
}

/// Consecutive pages are adjacent: from the first page on, the next page
/// starts where the current one ends, so paging skips and repeats nothing.
pub proof fn law_pages_are_adjacent(page: int, page_size: int)
    requires
        page >= 1,
    ensures
        page_window_of(page + 1, page_size).1 == page_window_of(page, page_size).1 + page_window_of(page, page_size).0,
        page_window_of(page + 1, page_size).0 == page_window_of(page, page_size).0,
{
    let limit = clamp(page_size, 1, 200);
    assert(page * limit == (page - 1) * limit + limit) by (nonlinear_arith);
}

// ── Autocomplete ────────────────────────────────────────────────────────────

/// A request for description suggestions.
pub struct AutocompleteRequest {
    pub query: String,
    pub limit: Option<i64>,
}

/// A past entry offered for reuse; references to deleted projects or tasks
/// are dropped and the suggestion marked orphaned.
pub struct AutocompleteSuggestion {
    pub description: String,
    pub project_id: Option<String>,
    pub project_name: Option<String>,
    pub task_id: Option<String>,
    pub task_name: Option<String>,
    pub tag_ids: Vec<String>,
    pub is_orphaned: bool,
}

/// The suggestions for a query.
pub struct AutocompleteResponse {
    pub suggestions: Vec<AutocompleteSuggestion>,
}

/// The number of suggestions: 10 when unspecified, clamped to 1..=20.
pub fn autocomplete_limit(limit: Option<i64>) -> (r: i64)
    ensures
        r == clamp(match limit { Some(l) => l as int, None => 10 }, 1, 20),
{
    let l = match limit {
        Some(l) => l,
        None => 10,
    };
    clamp_i64(l, 1, 20)
}

/// The SQL `LIKE` pattern matching descriptions that contain the query.
pub fn like_pattern(query: &str) -> (r: String)
    ensures
        r@ == seq!['%'] + query@ + seq!['%'],
{
    let r = crate::text::concat3("%", query, "%");
    proof {
        reveal_strlit("%");
    }
    r
}

/// A suggestion from a past entry: a project reference whose project no
/// longer exists is dropped with its name, likewise a task reference, and the
/// suggestion is orphaned when either was dropped.
pub fn autocomplete_suggestion(
    description: String,
    project_id: Option<String>,
    project_name: Option<String>,
    task_id: Option<String>,
    task_name: Option<String>,
    tag_ids: Vec<String>,
    project_exists: bool,
    task_exists: bool,
) -> (r: AutocompleteSuggestion)
    ensures
        r.description == description,
        r.tag_ids == tag_ids,
        r.is_orphaned == ((project_id is Some && !project_exists) || (task_id is Some && !task_exists)),
        (project_id is Some && !project_exists) ==> r.project_id is None && r.project_name is None,
        !(project_id is Some && !project_exists) ==> r.project_id == project_id && r.project_name == project_name,
        (task_id is Some && !task_exists) ==> r.task_id is None && r.task_name is None,
        !(task_id is Some && !task_exists) ==> r.task_id == task_id && r.task_name == task_name,
{
    let project_orphaned = project_id.is_some() && !project_exists;
    let task_orphaned = task_id.is_some() && !task_exists;
    AutocompleteSuggestion {
        description,
        project_id: if project_orphaned { None } else { project_id },
        project_name: if project_orphaned { None } else { project_name },
        task_id: if task_orphaned { None } else { task_id },
        task_name: if task_orphaned { None } else { task_name },
        tag_ids,
        is_orphaned: project_orphaned || task_orphaned,
    }
}

// ── Manual entries and updates ──────────────────────────────────────────────

/// A request to record a finished entry by hand.
pub struct TimeEntryCreateManualRequest {
    pub description: String,
    pub started_at: String,
    pub ended_at: String,
    pub project_id: Option<String>,
    pub task_id: Option<String>,
    pub tag_ids: Vec<String>,
    pub force: Option<bool>,
}

/// The id of the recorded entry.
pub struct TimeEntryCreateManualResponse {
    pub id: String,
}

/// A request to start a new timer like a past entry.
pub struct TimeEntryContinueRequest {
    pub source_entry_id: String,
}

/// Check that an entry starts strictly before it ends (timestamps compare as
/// text).
pub fn check_time_range(started_at: &str, ended_at: &str) -> (r: Result<(), TimerError>)
    ensures
        r is Ok <==> text_less(started_at@, ended_at@),
        r matches Err(e) ==> e == TimerError::InvalidTimeRange,
{
    if less_text(started_at, ended_at) {
        Ok(())
    } else {
        Err(TimerError::InvalidTimeRange)
    }
}

/// Overlaps are checked unless the request forces the write.
pub fn overlap_check_required(force: Option<bool>) -> (r: bool)
    ensures
        r == !(force == Some(true)),
{
    match force {
        Some(f) => !f,
        None => true,
    }
}

/// A partial update of an entry: absent fields stay; for the project and
/// task, `Some(None)` clears the reference.
pub struct TimeEntryUpdateRequest {
    pub id: String,
    pub description: Option<String>,
    pub project_id: Option<Option<String>>,
    pub task_id: Option<Option<String>>,
    pub tag_ids: Option<Vec<String>>,
    pub started_at: Option<String>,
    pub ended_at: Option<String>,
    pub force: Option<bool>,
}

/// The id of the updated entry and its new modification time.
pub struct TimeEntryUpdateResponse {
    pub id: String,
    pub modified_at: String,
}

/// The stored fields of an entry that an update may change.
pub struct EntryFields {
    pub description: String,
    pub project_id: Option<String>,
    pub task_id: Option<String>,
    pub started_at: String,
    pub ended_at: Option<String>,
}

/// A present update value, else the current one.
pub open spec fn or_current<T>(update: Option<T>, current: T) -> T {
    match update {
        Some(v) => v,
        None => current,
    }
}

/// The fields after applying an update.
pub open spec fn merged_fields(request: TimeEntryUpdateRequest, current: EntryFields) -> EntryFields {
    EntryFields {
        description: or_current(request.description, current.description),
        project_id: or_current(request.project_id, current.project_id),
        task_id: or_current(request.task_id, current.task_id),
        started_at: or_current(request.started_at, current.started_at),
        ended_at: match request.ended_at {
            Some(e) => Some(e),
            None => current.ended_at,
        },
    }
}

/// Apply an update to an entry's fields; refused when the entry then has an
/// end that is not after its start.
pub fn merge_entry_update(request: &TimeEntryUpdateRequest, current: EntryFields) -> (r: Result<EntryFields, TimerError>)
    ensures
        match r {
            Ok(f) => f == merged_fields(*request, current) && (f.ended_at matches Some(e) ==> text_less(f.started_at@, e@)),
            Err(e) => e == TimerError::InvalidTimeRange && (merged_fields(*request, current).ended_at matches Some(end)
                && !text_less(merged_fields(*request, current).started_at@, end@)),
        },
{
    let description = match &request.description {
        Some(d) => d.clone(),
        None => current.description,
    };
    let project_id = match &request.project_id {
        Some(p) => clone_opt_text(p),
        None => current.project_id,
    };
    let task_id = match &request.task_id {
        Some(t) => clone_opt_text(t),
        None => current.task_id,
    };
    let started_at = match &request.started_at {
        Some(s) => s.clone(),
        None => current.started_at,
    };
    let ended_at = match &request.ended_at {
        Some(e) => Some(e.clone()),
        None => current.ended_at,
    };
    match &ended_at {
        Some(end) => {
            if !less_text(started_at.as_str(), end.as_str()) {
                return Err(TimerError::InvalidTimeRange);
            }
        },
        None => {},
    }
    Ok(EntryFields { description, project_id, task_id, started_at, ended_at })
}

/// An update that names no field leaves the entry as it was.
pub proof fn law_absent_fields_untouched(request: TimeEntryUpdateRequest, current: EntryFields)
    requires
        request.description is None,
        request.project_id is None,
        request.task_id is None,
        request.started_at is None,
        request.ended_at is None,
    ensures
        merged_fields(request, current) == current,
{
}

/// A project or task given as an explicit null clears the reference, while
/// a value sets it.
pub proof fn law_null_clears_reference(request: TimeEntryUpdateRequest, current: EntryFields)
    ensures
        request.project_id == Some(None::<String>) ==> merged_fields(request, current).project_id is None,
        request.task_id == Some(None::<String>) ==> merged_fields(request, current).task_id is None,
        request.project_id matches Some(Some(p)) ==> merged_fields(request, current).project_id == Some(p),
        request.task_id matches Some(Some(t)) ==> merged_fields(request, current).task_id == Some(t),
{
}

/// Every field the update names replaces the stored one: a given
/// description, start or end is the entry's new description, start or end.
pub proof fn law_present_fields_replace(request: TimeEntryUpdateRequest, current: EntryFields)
    ensures
        request.description matches Some(d) ==> merged_fields(request, current).description == d,
        request.started_at matches Some(t) ==> merged_fields(request, current).started_at == t,
        request.ended_at matches Some(e) ==> merged_fields(request, current).ended_at == Some(e),
{
}

/// A description of 1 to 500 characters is always accepted; a longer one
/// is always refused; an empty one is accepted exactly when a project
/// names the work.
pub proof fn law_description_length_decides(description: &str, has_project: bool)
    ensures
        1 <= description@.len() <= 500 ==> !description_refused(description, has_project),
        description@.len() > 500 ==> description_refused(description, has_project),
        description@.len() == 0 ==> (description_refused(description, has_project) <==> !has_project),
{
}

/// Every page reads between 1 and 200 rows; a page size in that range is
/// kept as given; the first page (and any before it) starts at row 0, and
/// page `n` skips the `n - 1` pages before it.
pub proof fn law_page_window_bounds(page: int, page_size: int)
    ensures
        1 <= page_window_of(page, page_size).0 <= 200,
        1 <= page_size <= 200 ==> page_window_of(page, page_size).0 == page_size,
        page_size < 1 ==> page_window_of(page, page_size).0 == 1,
        page_size > 200 ==> page_window_of(page, page_size).0 == 200,
        page <= 1 ==> page_window_of(page, page_size).1 == 0,
        page >= 1 ==> page_window_of(page, page_size).1 == (page - 1) * page_window_of(page, page_size).0,
{
}

/// A start request is refused for its references exactly when one of them
/// does not exist, and a missing project is reported before a missing task,
/// which is reported before a missing tag.
pub proof fn law_missing_reference_order(project: Option<bool>, task: Option<bool>, tags: Seq<bool>)
    ensures
        missing_reference(project, task, tags) is None <==> (project != Some(false) && task != Some(false)
            && forall|i: int| 0 <= i < tags.len() ==> #[trigger] tags[i]),
        project == Some(false) ==> missing_reference(project, task, tags) == Some(TimerError::ProjectNotFound),
        project != Some(false) && task == Some(false) ==> missing_reference(project, task, tags) == Some(TimerError::TaskNotFound),
        project != Some(false) && task != Some(false) && (exists|i: int| 0 <= i < tags.len() && !#[trigger] tags[i])
            ==> missing_reference(project, task, tags) == Some(TimerError::TagNotFound),
{
}

} // verus!
