//! Instants as chrono represents them (whole seconds since the Unix epoch
//! plus nanoseconds), the wall clock, and RFC 3339 text.

use vstd::prelude::*;

verus! {

/// Nanoseconds in a second.
pub const NANOS_PER_SEC: i128 = 1_000_000_000;

/// An instant: seconds since the Unix epoch and the nanoseconds past that
/// second (at most 1,999,999,999, the excess marking a leap second).
#[derive(Clone, Copy, PartialEq, Eq, Debug, Structural)]
pub struct Timestamp {
    pub secs: i64,
    pub nanos: u32,
}

/// The instant in nanoseconds since the Unix epoch.
pub open spec fn instant_nanos(t: Timestamp) -> int {
    t.secs * 1_000_000_000 + t.nanos
}

/// What chrono's `DateTime::parse_from_rfc3339` gives for a text, as
/// (`timestamp()`, `timestamp_subsec_nanos()`), or `None` when it rejects it.
pub uninterp spec fn rfc3339_instant(s: Seq<char>) -> Option<(i64, u32)>;

/// What chrono's `to_rfc3339` prints for the UTC instant built by
/// `DateTime::<Utc>::from_timestamp(secs, nanos)`, or `None` when that
/// instant is out of chrono's range.
pub uninterp spec fn rfc3339_text(secs: i64, nanos: u32) -> Option<Seq<char>>;

/// Seconds bound of every instant chrono represents (its dates span years
/// -262144 to 262143, well within 10^13 seconds of the epoch).
pub const CHRONO_SECS_BOUND: i64 = 10_000_000_000_000;

/// An instant inside chrono's range.
pub open spec fn in_chrono_range(t: Timestamp) -> bool {
    -CHRONO_SECS_BOUND < t.secs < CHRONO_SECS_BOUND && t.nanos < 2_000_000_000
}

#[verifier::external_type_specification]
#[verifier::external_body]
pub struct ExSystemTime(std::time::SystemTime);

/// Reads std's `SystemTime::now`, the system clock; nothing is promised of
/// the reading.
#[verifier::external_body]
fn system_now() -> std::time::SystemTime {
    std::time::SystemTime::now()
}

/// std's `SystemTime::duration_since(UNIX_EPOCH)` as (`as_secs`,
/// `subsec_nanos`), or `None` when the time lies before the epoch; the
/// nanoseconds of a `Duration` are below one second.
#[verifier::external_body]
fn since_unix_epoch(t: &std::time::SystemTime) -> (r: Option<(u64, u32)>)
    ensures
        r matches Some(d) ==> d.1 < 1_000_000_000,
{
    t.duration_since(std::time::UNIX_EPOCH).ok().map(|d| (d.as_secs(), d.subsec_nanos()))
}

/// The current time from the system clock, as chrono's `Utc::now` reads
/// it; a clock set before 1970 (or beyond chrono's range) reads as the
/// epoch instead of failing.
pub(crate) fn now() -> (t: Timestamp)
    ensures
        in_chrono_range(t),
{
    match since_unix_epoch(&system_now()) {
        Some(d) => {
            if d.0 < 10_000_000_000_000u64 {
                Timestamp { secs: d.0 as i64, nanos: d.1 }
            } else {
                Timestamp { secs: 0, nanos: 0 }
            }
        },
        None => Timestamp { secs: 0, nanos: 0 },
    }
}

/// Parses an RFC 3339 text with chrono's `DateTime::parse_from_rfc3339`;
/// the result is named `rfc3339_instant` of the text.
#[verifier::external_body]
pub(crate) fn parse_rfc3339(s: &str) -> (r: Option<Timestamp>)
    ensures
        match r {
            Some(t) => rfc3339_instant(s@) == Some((t.secs, t.nanos)) && in_chrono_range(t),
            None => rfc3339_instant(s@) is None,
        },
{
    match chrono::DateTime::parse_from_rfc3339(s) {
        Ok(d) => Some(Timestamp { secs: d.timestamp(), nanos: d.timestamp_subsec_nanos() }),
        Err(_) => None,
    }
}

/// Prints an instant with chrono's `to_rfc3339` (UTC offset); the result is
/// named `rfc3339_text` of the instant.
#[verifier::external_body]
pub(crate) fn format_rfc3339(t: Timestamp) -> (r: Option<String>)
    ensures
        match r {
            Some(s) => rfc3339_text(t.secs, t.nanos) == Some(s@),
            None => rfc3339_text(t.secs, t.nanos) is None,
        },
{
    chrono::DateTime::<chrono::Utc>::from_timestamp(t.secs, t.nanos).map(|d| d.to_rfc3339())
}

/// Whole seconds from `earlier` to `later`, truncated toward zero, as
/// chrono's `TimeDelta::num_seconds` gives them.
pub open spec fn whole_seconds_between(later: Timestamp, earlier: Timestamp) -> int {
    let d = instant_nanos(later) - instant_nanos(earlier);
    if d >= 0 {
        d / 1_000_000_000
    } else {
        -((-d) / 1_000_000_000)
    }
}

/// Whole seconds from `earlier` to `later`, truncated toward zero.
pub fn seconds_between(later: Timestamp, earlier: Timestamp) -> (r: i64)
    requires
        i64::MIN <= whole_seconds_between(later, earlier) <= i64::MAX,
    ensures
        r == whole_seconds_between(later, earlier),
{
    let a: i128 = (later.secs as i128) * NANOS_PER_SEC + (later.nanos as i128);
    let b: i128 = (earlier.secs as i128) * NANOS_PER_SEC + (earlier.nanos as i128);
    let d: i128 = a - b;
    if d >= 0 {
        (d / NANOS_PER_SEC) as i64
    } else {
        let q: i128 = (-d) / NANOS_PER_SEC;
        (-q) as i64
    }
}

/// Whole seconds from `earlier` to `later`, truncated toward zero, for any
/// two instants.
pub fn seconds_between_wide(later: Timestamp, earlier: Timestamp) -> (r: i128)
    ensures
        r == whole_seconds_between(later, earlier),
{
    let a: i128 = (later.secs as i128) * NANOS_PER_SEC + (later.nanos as i128);
    let b: i128 = (earlier.secs as i128) * NANOS_PER_SEC + (earlier.nanos as i128);
    let d: i128 = a - b;
    if d >= 0 {
        d / NANOS_PER_SEC
    } else {
        let q: i128 = (-d) / NANOS_PER_SEC;
        -q
    }
}

/// The instant `secs` seconds before `t`.
pub fn seconds_before(t: Timestamp, secs: i64) -> (r: Timestamp)
    requires
        i64::MIN <= t.secs - secs <= i64::MAX,
    ensures
        r.secs == t.secs - secs,
        r.nanos == t.nanos,
        instant_nanos(r) == instant_nanos(t) - secs * 1_000_000_000,
{
    Timestamp { secs: t.secs - secs, nanos: t.nanos }
}

} // verus!
