//! Screenshot scheduling: interval and window-change captures, hourly
//! retention cleanup, file names and the retention cutoff.

use vstd::prelude::*;
use vstd::string::StringExecFns;
use crate::clock::{seconds_before, Timestamp};
use crate::ids::new_id;
use crate::text::{concat3, lowercase, to_lowercase};

verus! {

/// Nanoseconds a window must stay in front before a window-change capture.
pub const DEBOUNCE_NANOS: u64 = 2_000_000_000;

/// Ticks (seconds) between retention cleanups.
pub const CLEANUP_EVERY_TICKS: u64 = 3600;

/// The file name of a screenshot with this id: the lowercase id and `.jpg`.
pub open spec fn screenshot_file_name(id: Seq<char>) -> Seq<char> {
    lowercase(id) + ".jpg"@
}

/// The file name for a screenshot with the given id.
pub fn screenshot_filename_for(id: &str) -> (r: String)
    ensures
        r@ == screenshot_file_name(id@),
{
    let mut r = to_lowercase(id);
    r.append(".jpg");
    r
}

/// A file name for a new screenshot, from a fresh ULID.
pub fn make_screenshot_filename() -> (r: String)
    ensures
        exists|id: Seq<char>| crate::ids::is_ulid_text(id) && r@ == screenshot_file_name(id),
{
    let id = new_id();
    screenshot_filename_for(id.as_str())
}

/// The key that identifies a foreground window: `process|title`.
pub fn window_key(process_name: &str, window_title: &str) -> (r: String)
    ensures
        r@ == process_name@ + seq!['|'] + window_title@,
{
    let r = concat3(process_name, "|", window_title);
    proof {
        reveal_strlit("|");
    }
    r
}

/// Why a screenshot was taken.
#[derive(Clone, Copy, PartialEq, Eq, Debug, Structural)]
pub enum CaptureTrigger {
    Interval,
    WindowChange,
}

/// The trigger name stored with a screenshot.
pub open spec fn trigger_name(t: CaptureTrigger) -> Seq<char> {
    match t {
        CaptureTrigger::Interval => "interval"@,
        CaptureTrigger::WindowChange => "window_change"@,
    }
}

impl CaptureTrigger {
    /// The trigger name stored with a screenshot.
    pub fn name(&self) -> (r: &'static str)
        ensures
            r@ == trigger_name(*self),
    {
        match self {
            CaptureTrigger::Interval => "interval",
            CaptureTrigger::WindowChange => "window_change",
        }
    }
}

/// What the screenshot loop remembers between ticks; instants are
/// nanoseconds on the loop's monotonic clock.
pub struct ScreenshotScheduler {
    pub last_window_key: Option<String>,
    pub last_interval_capture: u64,
    pub debounce_until: Option<u64>,
    pub cleanup_tick: u64,
}

/// What one tick decides: a capture (and why) and whether to clean up.
pub struct ScreenshotTick {
    pub capture: Option<CaptureTrigger>,
    pub cleanup: bool,
}

/// The view of an optional key.
pub open spec fn key_view(k: Option<String>) -> Option<Seq<char>> {
    match k {
        Some(s) => Some(s@),
        None => None,
    }
}

fn same_key(a: &Option<String>, b: &Option<String>) -> (r: bool)
    ensures
        r == (key_view(*a) == key_view(*b)),
{
    match (a, b) {
        (Some(x), Some(y)) => crate::text::same_text(x.as_str(), y.as_str()),
        (None, None) => true,
        _ => false,
    }
}

impl ScreenshotScheduler {
    /// Started at `now`: no window seen, the interval counted from now.
    pub fn new(now: u64) -> (s: Self)
        ensures
            s.last_window_key is None,
            s.last_interval_capture == now,
            s.debounce_until is None,
            s.cleanup_tick == 0,
    {
        ScreenshotScheduler { last_window_key: None, last_interval_capture: now, debounce_until: None, cleanup_tick: 0 }
    }

    /// Counts the tick; `true` when the retention cleanup is due.
    pub fn count_tick(&mut self) -> (cleanup: bool)
        requires
            old(self).cleanup_tick < u64::MAX,
        ensures
            final(self).cleanup_tick == old(self).cleanup_tick + 1,
            cleanup == (final(self).cleanup_tick % CLEANUP_EVERY_TICKS == 0),
            final(self).last_window_key == old(self).last_window_key,
            final(self).last_interval_capture == old(self).last_interval_capture,
            final(self).debounce_until == old(self).debounce_until,
    {
        self.cleanup_tick = self.cleanup_tick + 1;
        self.cleanup_tick % CLEANUP_EVERY_TICKS == 0
    }

    /// Decides the capture of one tick at `now`. A changed window (by key)
    /// arms a two-second debounce; a capture is due when the interval (the
    /// preference read as unsigned seconds) has elapsed since the last
    /// interval capture, or when the debounce has expired. A due capture is a
    /// window-change capture when the debounce fired (which disarms it), else
    /// an interval capture; an elapsed interval restarts at now. A change
    /// never yields a window-change capture on its own tick: the window must
    /// settle first.
    pub fn decide_capture(&mut self, window_key: Option<String>, now: u64, interval_secs: i64) -> (capture: Option<CaptureTrigger>)
        requires
            now + DEBOUNCE_NANOS <= u64::MAX,
        ensures
            ({
                let changed = key_view(window_key) != key_view(old(self).last_window_key);
                let debounce = if changed { Some((now + DEBOUNCE_NANOS) as u64) } else { old(self).debounce_until };
                let elapsed = if now >= old(self).last_interval_capture { (now - old(self).last_interval_capture) as u64 } else { 0u64 };
                let interval_due = elapsed / 1_000_000_000 >= (interval_secs as u64);
                let fired = debounce matches Some(d) && now >= d;
                &&& key_view(final(self).last_window_key) == if changed { key_view(window_key) } else { key_view(old(self).last_window_key) }
                &&& capture == if fired { Some(CaptureTrigger::WindowChange) } else if interval_due { Some(CaptureTrigger::Interval) } else { None }
                &&& final(self).debounce_until == if fired { None } else { debounce }
                &&& final(self).last_interval_capture == if interval_due { now } else { old(self).last_interval_capture }
                &&& final(self).cleanup_tick == old(self).cleanup_tick
            }),
            key_view(window_key) != key_view(old(self).last_window_key) ==> capture != Some(CaptureTrigger::WindowChange),
    {
        if !same_key(&window_key, &self.last_window_key) {
            self.last_window_key = window_key;
            self.debounce_until = Some(now + DEBOUNCE_NANOS);
        }
        let elapsed: u64 = if now >= self.last_interval_capture { now - self.last_interval_capture } else { 0 };
        let interval_due = elapsed / 1_000_000_000 >= (interval_secs as u64);
        let fired = match self.debounce_until {
            Some(d) => now >= d,
            None => false,
        };
        if interval_due || fired {
            if fired {
                self.debounce_until = None;
            }
            if interval_due {
                self.last_interval_capture = now;
            }
            if fired {
                Some(CaptureTrigger::WindowChange)
            } else {
                Some(CaptureTrigger::Interval)
            }
        } else {
            None
        }
    }
}

/// A request for the screenshots captured between two instants (inclusive).
pub struct ScreenshotListRequest {
    pub from: String,
    pub to: String,
}

/// A screenshot as listed.
pub struct ScreenshotItem {
    pub id: String,
    pub file_path: String,
    pub captured_at: String,
    pub window_title: String,
    pub process_name: String,
    pub trigger: String,
}

/// Days of screenshots kept when the preferences give none.
pub const DEFAULT_RETENTION_DAYS: i64 = 30;

/// Seconds in a day.
pub const SECS_PER_DAY: i64 = 86_400;

/// The instant before which screenshots have expired: `retention_days`
/// days before now.
pub fn retention_cutoff(now: Timestamp, retention_days: i64) -> (r: Timestamp)
    requires
        -(i64::MAX / 86_400) <= retention_days <= i64::MAX / 86_400,
        i64::MIN <= now.secs - retention_days * 86_400 <= i64::MAX,
    ensures
        r.secs == now.secs - retention_days * 86_400,
        r.nanos == now.nanos,
{
    seconds_before(now, retention_days * SECS_PER_DAY)
}

} // verus!
