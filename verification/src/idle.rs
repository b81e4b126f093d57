//! Idle detection and the ways an idle period is resolved.

use vstd::prelude::*;
use crate::clock::{format_rfc3339, in_chrono_range, instant_nanos, now, rfc3339_text, seconds_before, Timestamp};
use crate::text::{copy_text, same_text};

verus! {

/// Seconds without input after which the user counts as idle when the
/// preferences give no threshold.
pub const DEFAULT_IDLE_THRESHOLD_SECS: i64 = 300;

/// Idle when the seconds without input reach the threshold (the threshold
/// read as unsigned, as the platform reports seconds unsigned).
pub open spec fn idle_by(idle_secs: u64, threshold_secs: i64) -> bool {
    idle_secs >= (threshold_secs as u64)
}

/// Whether the user is idle.
pub fn is_idle(idle_secs: u64, threshold_secs: i64) -> (r: bool)
    ensures
        r == idle_by(idle_secs, threshold_secs),
{
    idle_secs >= (threshold_secs as u64)
}

/// The idle status: whether idle, for how many seconds, and since when.
pub struct IdleStatusResponse {
    pub is_idle: bool,
    pub idle_seconds: u64,
    pub idle_since: Option<String>,
}

/// The idle status at `now`: whether idle, the seconds without input, and,
/// when idle, the start of the idle period (`idle_secs` seconds before now)
/// as RFC 3339 text.
pub open spec fn idle_status_ok(idle_secs: u64, threshold_secs: i64, now: Timestamp, r: IdleStatusResponse) -> bool {
    &&& r.is_idle == idle_by(idle_secs, threshold_secs)
    &&& r.idle_seconds == idle_secs
    &&& !r.is_idle ==> r.idle_since is None
    &&& r.is_idle ==> match r.idle_since {
        Some(s) => rfc3339_text((now.secs - idle_secs) as i64, now.nanos) == Some(s@),
        None => rfc3339_text((now.secs - idle_secs) as i64, now.nanos) is None,
    }
}

/// The idle status at `now`.
pub fn idle_status_at(idle_secs: u64, threshold_secs: i64, now: Timestamp) -> (r: IdleStatusResponse)
    requires
        idle_secs <= i64::MAX / 1000,
        now.secs - idle_secs >= i64::MIN,
    ensures
        idle_status_ok(idle_secs, threshold_secs, now, r),
{
    let idle = is_idle(idle_secs, threshold_secs);
    let idle_since = if idle {
        let since = seconds_before(now, idle_secs as i64);
        format_rfc3339(since)
    } else {
        None
    };
    IdleStatusResponse { is_idle: idle, idle_seconds: idle_secs, idle_since }
}

/// The idle status now, from the seconds without input the platform reports;
/// `None` when that count is too large to subtract from a date.
pub fn get_current_idle_status(idle_secs: u64, threshold_secs: i64) -> (r: Option<IdleStatusResponse>)
    ensures
        r is None <==> idle_secs > i64::MAX / 1000,
        r matches Some(s) ==> exists|t: Timestamp| in_chrono_range(t) && idle_status_ok(idle_secs, threshold_secs, t, s),
{
    if idle_secs > (i64::MAX / 1000) as u64 {
        return None;
    }
    let t = now();
    Some(idle_status_at(idle_secs, threshold_secs, t))
}

/// What the idle loop remembers between ticks.
#[derive(Clone, Copy, PartialEq, Eq, Debug, Structural)]
pub struct IdleTracker {
    pub is_idle: bool,
    pub idle_started_at: Option<Timestamp>,
    pub had_active_timer: bool,
}

impl IdleTracker {
    /// Not idle, no period recorded.
    pub fn new() -> (r: Self)
        ensures
            !r.is_idle,
            r.idle_started_at is None,
            !r.had_active_timer,
    {
        IdleTracker { is_idle: false, idle_started_at: None, had_active_timer: false }
    }

    /// One tick of the idle loop. On the change to idle, the period's start
    /// (`idle_secs` before now) is recorded with whether a timer was running,
    /// and returned when a timer was running so the frontend can be told; on
    /// the change back to active the state is cleared.
    pub fn step(&mut self, idle_secs: u64, threshold_secs: i64, has_running_timer: bool, now: Timestamp) -> (event: Option<Timestamp>)
        requires
            idle_secs <= i64::MAX / 1000,
            now.secs - idle_secs >= i64::MIN,
        ensures
            idle_by(idle_secs, threshold_secs) && !old(self).is_idle ==> {
                &&& final(self).is_idle
                &&& final(self).idle_started_at == Some(Timestamp { secs: (now.secs - idle_secs) as i64, nanos: now.nanos })
                &&& final(self).had_active_timer == has_running_timer
                &&& event == if has_running_timer { final(self).idle_started_at } else { None }
            },
            !idle_by(idle_secs, threshold_secs) && old(self).is_idle ==> {
                &&& *final(self) == IdleTracker { is_idle: false, idle_started_at: None, had_active_timer: false }
                &&& event is None
            },
            idle_by(idle_secs, threshold_secs) == old(self).is_idle ==> *final(self) == *old(self) && event is None,
            event is Some ==> has_running_timer,
    {
        let now_idle = is_idle(idle_secs, threshold_secs);
        let mut event: Option<Timestamp> = None;
        if now_idle && !self.is_idle {
            let start = seconds_before(now, idle_secs as i64);
            self.is_idle = true;
            self.idle_started_at = Some(start);
            self.had_active_timer = has_running_timer;
            if has_running_timer {
                event = Some(start);
            }
        }
        if !now_idle && self.is_idle {
            self.is_idle = false;
            self.idle_started_at = None;
            self.had_active_timer = false;
        }
        event
    }
}

// ── Resolving an idle period ────────────────────────────────────────────────

/// How the user resolves an idle period.
#[derive(Clone, Copy, PartialEq, Eq, Debug, Structural)]
pub enum IdleResolution {
    /// Keep the timer running; nothing is recorded.
    Keep,
    /// Record the period as a break.
    Break,
    /// Record the period as a meeting.
    Meeting,
    /// Record the period as the entry the user describes.
    Specify,
}

/// The resolution a name selects.
pub open spec fn resolution_named(name: Seq<char>) -> Option<IdleResolution> {
    if name == "keep"@ {
        Some(IdleResolution::Keep)
    } else if name == "break"@ {
        Some(IdleResolution::Break)
    } else if name == "meeting"@ {
        Some(IdleResolution::Meeting)
    } else if name == "specify"@ {
        Some(IdleResolution::Specify)
    } else {
        None
    }
}

/// The resolution a name selects, if any.
pub fn parse_resolution(name: &str) -> (r: Option<IdleResolution>)
    ensures
        r == resolution_named(name@),
{
    if same_text(name, "keep") {
        Some(IdleResolution::Keep)
    } else if same_text(name, "break") {
        Some(IdleResolution::Break)
    } else if same_text(name, "meeting") {
        Some(IdleResolution::Meeting)
    } else if same_text(name, "specify") {
        Some(IdleResolution::Specify)
    } else {
        None
    }
}

/// The entry the user describes for an idle period.
pub struct EntryDetails {
    pub description: String,
    pub project_id: Option<String>,
    pub task_id: Option<String>,
    pub tag_ids: Vec<String>,
}

/// A request to resolve an idle period.
pub struct IdleResolveRequest {
    pub resolution: String,
    pub idle_started_at: String,
    pub idle_ended_at: String,
    pub entry_details: Option<EntryDetails>,
}

/// The entry recorded for the period and the entry that resumed the timer.
pub struct IdleResolveResponse {
    pub created_entry_id: Option<String>,
    pub resumed_entry_id: Option<String>,
    pub resumed_started_at: Option<String>,
}

/// The entry to record for an idle period (it runs from the idle start to
/// the idle end).
pub struct IdleEntryPlan {
    pub description: String,
    pub project_id: Option<String>,
    pub task_id: Option<String>,
    pub is_break: bool,
    pub tag_ids: Vec<String>,
}

/// Why an idle resolution is refused.
pub enum IdleResolveError {
    /// The resolution name is none of keep, break, meeting, specify.
    UnknownResolution(String),
    /// `specify` came without entry details.
    MissingEntryDetails,
}

/// The message of an idle resolution error.
pub open spec fn idle_error_message(e: IdleResolveError) -> Seq<char> {
    match e {
        IdleResolveError::UnknownResolution(name) => "unknown resolution: "@ + name@,
        IdleResolveError::MissingEntryDetails => "specify requires entry_details"@,
    }
}

impl IdleResolveError {
    /// The error message the frontend receives.
    pub fn message(&self) -> (r: String)
        ensures
            r@ == idle_error_message(*self),
    {
        match self {
            IdleResolveError::UnknownResolution(name) => {
                let r = crate::text::concat3("unknown resolution: ", name.as_str(), "");
                proof {
                    reveal_strlit("");
                    assert(r@ =~= idle_error_message(*self));
                }
                r
            },
            IdleResolveError::MissingEntryDetails => copy_text("specify requires entry_details"),
        }
    }
}

/// What a resolution records: nothing for keep (the timer keeps running),
/// otherwise one entry over the idle period (a break, a meeting, or the
/// described entry with its tags); the running timer, if any, is stopped at
/// the idle start and resumed at the idle end.
pub open spec fn idle_plan_ok(request: IdleResolveRequest, r: Result<Option<IdleEntryPlan>, IdleResolveError>) -> bool {
    match resolution_named(request.resolution@) {
        None => r matches Err(e) && e matches IdleResolveError::UnknownResolution(n) && n@ == request.resolution@,
        Some(IdleResolution::Keep) => r matches Ok(p) && p is None,
        Some(IdleResolution::Break) => r matches Ok(Some(p)) && p.description@ == "Break"@
            && p.project_id is None && p.task_id is None && p.is_break && p.tag_ids@.len() == 0,
        Some(IdleResolution::Meeting) => r matches Ok(Some(p)) && p.description@ == "Meeting"@
            && p.project_id is None && p.task_id is None && !p.is_break && p.tag_ids@.len() == 0,
        Some(IdleResolution::Specify) => match request.entry_details {
            None => r matches Err(e) && e is MissingEntryDetails,
            Some(d) => r matches Ok(Some(p)) && p.description == d.description && p.project_id == d.project_id
                && p.task_id == d.task_id && !p.is_break && p.tag_ids == d.tag_ids,
        },
    }
}

/// Decide what an idle resolution records.
pub fn plan_idle_resolution(request: IdleResolveRequest) -> (r: Result<Option<IdleEntryPlan>, IdleResolveError>)
    ensures
        idle_plan_ok(request, r),
{
    let ghost req = request;
    match parse_resolution(request.resolution.as_str()) {
        None => Err(IdleResolveError::UnknownResolution(request.resolution)),
        Some(IdleResolution::Keep) => Ok(None),
        Some(IdleResolution::Break) => Ok(Some(IdleEntryPlan {
            description: copy_text("Break"),
            project_id: None,
            task_id: None,
            is_break: true,
            tag_ids: Vec::new(),
        })),
        Some(IdleResolution::Meeting) => Ok(Some(IdleEntryPlan {
            description: copy_text("Meeting"),
            project_id: None,
            task_id: None,
            is_break: false,
            tag_ids: Vec::new(),
        })),
        Some(IdleResolution::Specify) => match request.entry_details {
            None => Err(IdleResolveError::MissingEntryDetails),
            Some(d) => Ok(Some(IdleEntryPlan {
                description: d.description,
                project_id: d.project_id,
                task_id: d.task_id,
                is_break: false,
                tag_ids: d.tag_ids,
            })),
        },
    }
}

/// The timer running when an idle period is resolved.
pub struct RunningTimer {
    pub id: String,
    pub description: String,
    pub project_id: Option<String>,
    pub task_id: Option<String>,
    pub tag_ids: Vec<String>,
}

/// The entry that resumes a stopped timer after the idle period.
pub struct ResumedEntry {
    pub description: String,
    pub project_id: Option<String>,
    pub task_id: Option<String>,
    pub tag_ids: Vec<String>,
    pub started_at: String,
}

/// What happens to the running timer around a recorded idle period.
pub struct TimerAroundIdle {
    /// The running entry to end and the instant it ends (the idle start).
    pub stop: Option<(String, String)>,
    /// A new running entry like the stopped one, from the idle end.
    pub resume: Option<ResumedEntry>,
}

/// When an idle period is recorded, a running timer is stopped at the idle
/// start and resumed, with the same description, project, task and tags, at
/// the idle end; with no running timer nothing is stopped or resumed.
pub fn plan_timer_around_idle(
    running: Option<RunningTimer>,
    idle_started_at: String,
    idle_ended_at: String,
) -> (r: TimerAroundIdle)
    ensures
        running is None ==> r.stop is None && r.resume is None,
        running matches Some(t) ==> {
            &&& r.stop == Some((t.id, idle_started_at))
            &&& r.resume matches Some(e)
            &&& e.description == t.description
            &&& e.project_id == t.project_id
            &&& e.task_id == t.task_id
            &&& e.tag_ids == t.tag_ids
            &&& e.started_at == idle_ended_at
        },
{
    match running {
        None => TimerAroundIdle { stop: None, resume: None },
        Some(t) => TimerAroundIdle {
            stop: Some((t.id, idle_started_at)),
            resume: Some(ResumedEntry {
                description: t.description,
                project_id: t.project_id,
                task_id: t.task_id,
                tag_ids: t.tag_ids,
                started_at: idle_ended_at,
            }),
        },
    }
}

/// For every non-negative threshold, the user is idle exactly when the
/// seconds without input reach it; so a longer timeout never makes a user
/// idle sooner.
pub proof fn law_idle_follows_threshold(idle_secs: u64, threshold_secs: i64, longer_secs: i64)
    requires
        0 <= threshold_secs,
    ensures
        idle_by(idle_secs, threshold_secs) <==> idle_secs >= threshold_secs,
        threshold_secs <= longer_secs && idle_by(idle_secs, longer_secs) ==> idle_by(idle_secs, threshold_secs),
{
}

} // verus!
