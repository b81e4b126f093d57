//! Window activity tracking: window-change detection, the process deny list
//! (applied before anything is stored), and the record a change produces.

use vstd::prelude::*;
use crate::text::{chars_of, concat3, contains_chars, contains_text, lowercase, to_lowercase, string_views};

verus! {

/// The foreground window as the platform reports it.
pub struct WindowInfo {
    /// The window title text.
    pub title: String,
    /// The process executable name (e.g. `chrome.exe`).
    pub process_name: String,
    /// The full path to the process executable.
    pub process_path: String,
}

/// Operating-system queries the trackers need.
pub trait PlatformHooks {
    /// The foreground window, or `None` when there is none or the query fails.
    fn get_foreground_window_info(&self) -> Option<WindowInfo>;

    /// Seconds since the last keyboard or mouse input.
    fn get_idle_seconds(&self) -> u64;
}

/// What `serde_json::from_str::<Vec<String>>` gives for a text, or `None`
/// when it rejects it.
pub uninterp spec fn json_string_list(s: Seq<char>) -> Option<Seq<Seq<char>>>;

/// Parses a JSON array of strings with `serde_json::from_str`; the result is
/// named `json_string_list` of the text.
#[verifier::external_body]
fn parse_string_list(json: &str) -> (r: Option<Vec<String>>)
    ensures
        match r {
            Some(v) => json_string_list(json@) == Some(string_views(v@)),
            None => json_string_list(json@) is None,
        },
{
    serde_json::from_str::<Vec<String>>(json).ok()
}

/// The deny list stored as JSON; an unreadable list denies nothing.
pub fn deny_list_from_json(json: &str) -> (r: Vec<String>)
    ensures
        match json_string_list(json@) {
            Some(l) => string_views(r@) == l,
            None => r@.len() == 0,
        },
{
    match parse_string_list(json) {
        Some(v) => v,
        None => Vec::new(),
    }
}

/// A process is denied when some deny-list entry, lowercased, occurs in its
/// lowercased name.
pub open spec fn denied_by(process_name: Seq<char>, deny_list: Seq<Seq<char>>) -> bool {
    exists|i: int| 0 <= i < deny_list.len() && contains_text(lowercase(process_name), lowercase(#[trigger] deny_list[i]))
}

/// Whether the process is on the deny list.
pub fn process_denied(process_name: &str, deny_list: &Vec<String>) -> (r: bool)
    ensures
        r == denied_by(process_name@, string_views(deny_list@)),
{
    let lp = to_lowercase(process_name);
    let lower = chars_of(lp.as_str());
    let mut i: usize = 0;
    while i < deny_list.len()
        invariant
            i <= deny_list.len(),
            lower@ == lowercase(process_name@),
            forall|k: int| 0 <= k < i ==> !contains_text(lowercase(process_name@), lowercase(#[trigger] string_views(deny_list@)[k])),
        decreases deny_list.len() - i,
    {
        let le = to_lowercase(deny_list[i].as_str());
        let entry = chars_of(le.as_str());
        assert(string_views(deny_list@)[i as int] == deny_list@[i as int]@);
        if contains_chars(&lower, &entry) {
            return true;
        }
        i += 1;
    }
    false
}

/// The view of an optional (process, title) pair.
pub open spec fn window_view(w: Option<(String, String)>) -> Option<(Seq<char>, Seq<char>)> {
    match w {
        Some(p) => Some((p.0@, p.1@)),
        None => None,
    }
}

/// A window change: a window appeared, disappeared, or differs from the last.
pub open spec fn window_changed(last: Option<(Seq<char>, Seq<char>)>, current: Option<(Seq<char>, Seq<char>)>) -> bool {
    match (last, current) {
        (None, None) => false,
        (Some(p), Some(c)) => p != c,
        _ => true,
    }
}

/// The title stored in place of a denied process's window title.
pub open spec fn redacted_title() -> Seq<char> {
    "[REDACTED]"@
}

/// Longest window title stored, in characters.
pub const MAX_TITLE_CHARS: usize = 500;

/// A window title as stored: its first 500 characters.
pub open spec fn stored_title(title: Seq<char>) -> Seq<char> {
    if title.len() > 500 {
        title.take(500)
    } else {
        title
    }
}

/// The title as stored: cut to its first 500 characters.
pub fn truncate_title(title: &str) -> (r: String)
    ensures
        r@ == stored_title(title@),
{
    let cs = chars_of(title);
    if cs.len() <= MAX_TITLE_CHARS {
        return crate::text::copy_text(title);
    }
    let mut out: Vec<char> = Vec::new();
    let mut i: usize = 0;
    while i < MAX_TITLE_CHARS
        invariant
            i <= MAX_TITLE_CHARS < cs.len(),
            cs@ == title@,
            out@ == cs@.take(i as int),
        decreases MAX_TITLE_CHARS - i,
    {
        out.push(cs[i]);
        i += 1;
        assert(out@ =~= cs@.take(i as int));
    }
    crate::text::string_from_chars(&out)
}

/// The record stored for a window change.
pub struct ActivityRecordPlan {
    pub process_name: String,
    pub window_title: String,
    /// `process:title`, standing for the window (no raw handle is kept);
    /// `process:[REDACTED]` for a denied process.
    pub window_handle: String,
}

/// What the tracker remembers: the last window seen as (process, title).
pub struct ActivityTracker {
    pub last_window: Option<(String, String)>,
}

impl ActivityTracker {
    /// No window seen yet; the first window counts as a change.
    pub fn new() -> (t: Self)
        ensures
            t.last_window is None,
    {
        ActivityTracker { last_window: None }
    }

    /// Whether `current` is a change from the last window seen.
    pub fn is_change(&self, current: &Option<(String, String)>) -> (r: bool)
        ensures
            r == window_changed(window_view(self.last_window), window_view(*current)),
    {
        match (&self.last_window, current) {
            (None, None) => false,
            (Some(p), Some(c)) => {
                let same = crate::text::same_text(p.0.as_str(), c.0.as_str())
                    && crate::text::same_text(p.1.as_str(), c.1.as_str());
                !same
            },
            _ => true,
        }
    }

    /// Records a window change: the new window becomes the last one, and a
    /// record is planned whenever there is a window. Its title is cut to 500
    /// characters; for a denied process the title is replaced by
    /// `[REDACTED]`, in the record and in its handle, so the real title is
    /// never stored.
    pub fn observe_change(&mut self, current: Option<(String, String)>, deny_list: &Vec<String>) -> (r: Option<ActivityRecordPlan>)
        ensures
            final(self).last_window == current,
            match current {
                None => r is None,
                Some(w) => r matches Some(p) && p.process_name@ == w.0@ && if denied_by(w.0@, string_views(deny_list@)) {
                    p.window_title@ == redacted_title() && p.window_handle@ == w.0@ + seq![':'] + redacted_title()
                } else {
                    p.window_title@ == stored_title(w.1@) && p.window_handle@ == w.0@ + seq![':'] + w.1@
                },
            },
    {
        let plan = match &current {
            None => None,
            Some(w) => {
                if process_denied(w.0.as_str(), deny_list) {
                    let handle = concat3(w.0.as_str(), ":", "[REDACTED]");
                    proof {
                        reveal_strlit(":");
                        reveal_strlit("[REDACTED]");
                    }
                    Some(ActivityRecordPlan {
                        process_name: crate::text::copy_text(w.0.as_str()),
                        window_title: crate::text::copy_text("[REDACTED]"),
                        window_handle: handle,
                    })
                } else {
                    let handle = concat3(w.0.as_str(), ":", w.1.as_str());
                    proof {
                        reveal_strlit(":");
                    }
                    Some(ActivityRecordPlan {
                        process_name: crate::text::copy_text(w.0.as_str()),
                        window_title: truncate_title(w.1.as_str()),
                        window_handle: handle,
                    })
                }
            },
        };
        self.last_window = current;
        plan
    }
}

/// Between two windows, any difference counts as a change: another process,
/// or the same process with another title (a new tab or document).
pub proof fn law_window_change_is_any_difference(last: (Seq<char>, Seq<char>), current: (Seq<char>, Seq<char>))
    ensures
        window_changed(Some(last), Some(current)) <==> (last.0 != current.0 || last.1 != current.1),
        window_changed(None, Some(current)),
        window_changed(Some(last), None),
        !window_changed(None, None),
{
}

/// A stored title is the start of the real one, at most 500 characters
/// long, and a title of at most 500 characters is stored whole.
pub proof fn law_stored_title_is_prefix(title: Seq<char>)
    ensures
        stored_title(title).len() <= 500,
        stored_title(title).len() <= title.len(),
        forall|i: int| 0 <= i < stored_title(title).len() ==> #[trigger] stored_title(title)[i] == title[i],
        title.len() <= 500 ==> stored_title(title) == title,
        title.len() > 500 ==> stored_title(title).len() == 500,
{
}

} // verus!
