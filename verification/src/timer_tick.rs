//! The timer tick: whole seconds a running timer has been running.

use vstd::prelude::*;
use crate::clock::{now, parse_rfc3339, rfc3339_instant, seconds_between, whole_seconds_between, Timestamp};

verus! {

/// Seconds since a timer started (never negative); 0 when the start does not
/// parse.
pub open spec fn elapsed_since(started_at: Seq<char>, now: Timestamp) -> int {
    match rfc3339_instant(started_at) {
        Some(s) => {
            let d = whole_seconds_between(now, Timestamp { secs: s.0, nanos: s.1 });
            if d > 0 { d } else { 0 }
        },
        None => 0,
    }
}

/// Whole seconds the timer has run at `now`.
pub fn elapsed_seconds_at(started_at: &str, now: Timestamp) -> (r: i64)
    requires
        crate::clock::in_chrono_range(now),
    ensures
        r == elapsed_since(started_at@, now),
{
    match parse_rfc3339(started_at) {
        Some(s) => {
            let d = seconds_between(now, s);
            if d > 0 { d } else { 0 }
        },
        None => 0,
    }
}

/// Whole seconds the timer has run until now.
pub fn elapsed_seconds(started_at: &str) -> (r: i64)
    ensures
        r >= 0,
        exists|t: Timestamp| r == elapsed_since(started_at@, t),
{
    let t = now();
    elapsed_seconds_at(started_at, t)
}

} // verus!
