//! Sync bookkeeping: the connection URI rule, the shared sync state and how
//! configuration and sync cycles change it, the status answer, and the
//! tables a queued delete may target.

use vstd::prelude::*;
use crate::classification::clone_opt_text;
use crate::text::{
    chars_of, copy_text, has_prefix, lemma_text_less_irreflexive, lemma_text_less_transitive, less_text, same_text,
    starts_with_chars, string_from_chars, text_less, trim_chars, trimmed,
};

verus! {

/// State shared between the sync loop and the sync commands.
pub struct SyncState {
    pub connected: bool,
    pub last_sync_at: Option<String>,
    /// Scan `modified_at >=` this instant (RFC 3339); `None` scans everything.
    pub last_sync_cursor: Option<String>,
    pub last_error: Option<String>,
    /// The URI cached after a successful configuration or a keychain restore.
    pub cached_uri: Option<String>,
}

impl SyncState {
    /// Disconnected, never synced, nothing cached.
    pub fn new() -> (s: Self)
        ensures
            !s.connected,
            s.last_sync_at is None,
            s.last_sync_cursor is None,
            s.last_error is None,
            s.cached_uri is None,
    {
        SyncState { connected: false, last_sync_at: None, last_sync_cursor: None, last_error: None, cached_uri: None }
    }

    /// Sync was disabled: disconnected, no error, no cached URI.
    pub fn disable(&mut self)
        ensures
            !final(self).connected,
            final(self).last_error is None,
            final(self).cached_uri is None,
            final(self).last_sync_at == old(self).last_sync_at,
            final(self).last_sync_cursor == old(self).last_sync_cursor,
    {
        self.connected = false;
        self.last_error = None;
        self.cached_uri = None;
    }

    /// The URI was accepted: connected, no error, URI cached, and the cursor
    /// reset so the next cycle sends every record.
    pub fn configured(&mut self, uri: String)
        ensures
            final(self).connected,
            final(self).last_error is None,
            final(self).cached_uri == Some(uri),
            final(self).last_sync_cursor is None,
            final(self).last_sync_at == old(self).last_sync_at,
    {
        self.connected = true;
        self.last_error = None;
        self.cached_uri = Some(uri);
        self.last_sync_cursor = None;
    }

    /// A connection attempt or a cycle failed: disconnected, with the error.
    pub fn failed(&mut self, error: String)
        ensures
            !final(self).connected,
            final(self).last_error == Some(error),
            final(self).cached_uri == old(self).cached_uri,
            final(self).last_sync_at == old(self).last_sync_at,
            final(self).last_sync_cursor == old(self).last_sync_cursor,
    {
        self.connected = false;
        self.last_error = Some(error);
    }

    /// A cycle succeeded at `now`: connected, no error, synced now, and the
    /// cursor moved to where the cycle started the next scan.
    pub fn synced(&mut self, now: String, new_cursor: String)
        ensures
            final(self).connected,
            final(self).last_error is None,
            final(self).last_sync_at == Some(now),
            final(self).last_sync_cursor == Some(new_cursor),
            final(self).cached_uri == old(self).cached_uri,
    {
        self.connected = true;
        self.last_sync_at = Some(now);
        self.last_sync_cursor = Some(new_cursor);
        self.last_error = None;
    }
}

/// A request to configure the external database.
pub struct SyncConfigureRequest {
    pub connection_uri: String,
    pub enabled: bool,
}

/// Whether the configured database answered.
pub struct SyncConfigureResponse {
    pub connected: bool,
}

/// The sync status shown to the user.
pub struct SyncStatusResponse {
    pub enabled: bool,
    pub connected: bool,
    pub pending_queue_size: i64,
    pub last_sync_at: Option<String>,
    pub last_error: Option<String>,
}

/// Records sent and failures of a triggered cycle.
pub struct SyncTriggerResponse {
    pub synced_records: i64,
    pub errors: i64,
}

/// The status answer from the stored flag, the queue size and the state.
pub fn sync_status(enabled: bool, pending_queue_size: i64, state: &SyncState) -> (r: SyncStatusResponse)
    ensures
        r.enabled == enabled,
        r.pending_queue_size == pending_queue_size,
        r.connected == state.connected,
        r.last_sync_at == state.last_sync_at,
        r.last_error == state.last_error,
{
    SyncStatusResponse {
        enabled,
        connected: state.connected,
        pending_queue_size,
        last_sync_at: clone_opt_text(&state.last_sync_at),
        last_error: clone_opt_text(&state.last_error),
    }
}

/// Why a sync configuration is refused.
#[derive(Clone, Copy, PartialEq, Eq, Debug, Structural)]
pub enum SyncUriError {
    /// The URI does not begin with `postgres://` or `postgresql://`.
    InvalidUri,
}

/// The message of a refused URI.
pub open spec fn invalid_uri_message() -> Seq<char> {
    "invalid_uri: must begin with postgres:// or postgresql://"@
}

impl SyncUriError {
    /// The error message the frontend receives.
    pub fn message(&self) -> (r: String)
        ensures
            r@ == invalid_uri_message(),
    {
        copy_text_lit()
    }
}

fn copy_text_lit() -> (r: String)
    ensures
        r@ == invalid_uri_message(),
{
    copy_text("invalid_uri: must begin with postgres:// or postgresql://")
}

/// The trimmed URI is accepted when it begins with `postgres://` or
/// `postgresql://`.
pub open spec fn uri_outcome(uri: Seq<char>) -> Result<Seq<char>, SyncUriError> {
    let t = trimmed(uri);
    if has_prefix(t, "postgres://"@) || has_prefix(t, "postgresql://"@) {
        Ok(t)
    } else {
        Err(SyncUriError::InvalidUri)
    }
}

/// Check a connection URI; the trimmed URI when accepted.
pub fn validate_sync_uri(uri: &str) -> (r: Result<String, SyncUriError>)
    ensures
        match r {
            Ok(s) => uri_outcome(uri@) == Ok::<Seq<char>, SyncUriError>(s@),
            Err(e) => uri_outcome(uri@) == Err::<Seq<char>, SyncUriError>(e),
        },
{
    let cs = chars_of(uri);
    let t = trim_chars(&cs);
    let p1 = chars_of("postgres://");
    let p2 = chars_of("postgresql://");
    if starts_with_chars(&t, &p1) || starts_with_chars(&t, &p2) {
        Ok(string_from_chars(&t))
    } else {
        Err(SyncUriError::InvalidUri)
    }
}

/// The URI a triggered cycle uses: the cached one, else the keychain's.
pub fn trigger_uri(cached: &Option<String>, keychain: Result<String, String>) -> (r: Result<String, String>)
    ensures
        *cached matches Some(c) ==> r == Ok::<String, String>(c),
        cached is None ==> r == keychain,
{
    match cached {
        Some(c) => Ok(c.clone()),
        None => keychain,
    }
}

/// What the sync loop does on a wake-up.
pub enum SyncCyclePlan {
    /// Sync is off, or no URI is cached: wait for the next wake-up.
    Skip,
    /// Run a cycle against this URI.
    Run(String),
}

/// A cycle runs only when sync is enabled and a URI is cached.
pub fn plan_sync_cycle(enabled: bool, cached_uri: &Option<String>) -> (r: SyncCyclePlan)
    ensures
        enabled && cached_uri is Some ==> (r matches SyncCyclePlan::Run(u) && Some(u) == *cached_uri),
        !(enabled && cached_uri is Some) ==> r is Skip,
{
    if !enabled {
        return SyncCyclePlan::Skip;
    }
    match cached_uri {
        Some(u) => SyncCyclePlan::Run(u.clone()),
        None => SyncCyclePlan::Skip,
    }
}

/// The running count of a sync cycle: records sent, failures, the context
/// of the first failure (which names the root cause in the log), and where
/// the next scan must start so that no scanned row that was not sent is
/// skipped.
pub struct SyncTally {
    synced: i64,
    errors: i64,
    first_error: Option<String>,
    /// Where this cycle's scan started (empty: everything).
    start: String,
    /// The latest `modified_at` among the scanned rows sent.
    latest_sent: String,
    /// The earliest `modified_at` among the scanned rows not sent (failed,
    /// or left for a later batch).
    stop: Option<String>,
    /// The scanned rows seen so far: (`modified_at`, sent).
    rows: Ghost<Seq<(Seq<char>, bool)>>,
}

/// The model of a cycle's tally.
pub struct TallyView {
    pub synced: int,
    pub errors: int,
    pub first_error: Option<Seq<char>>,
    pub start: Seq<char>,
    pub latest_sent: Seq<char>,
    pub stop: Option<Seq<char>>,
    pub rows: Seq<(Seq<char>, bool)>,
}

/// The view of an optional text.
pub open spec fn opt_text(o: Option<String>) -> Option<Seq<char>> {
    match o {
        Some(s) => Some(s@),
        None => None,
    }
}

impl View for SyncTally {
    type V = TallyView;

    closed spec fn view(&self) -> TallyView {
        TallyView {
            synced: self.synced as int,
            errors: self.errors as int,
            first_error: opt_text(self.first_error),
            start: self.start@,
            latest_sent: self.latest_sent@,
            stop: opt_text(self.stop),
            rows: self.rows@,
        }
    }
}

/// The later of two timestamps compared as text (as the store compares them).
pub open spec fn later_text(a: Seq<char>, b: Seq<char>) -> Seq<char> {
    if text_less(a, b) { b } else { a }
}

/// The earliest unsent timestamp after one more unsent row at `m`.
pub open spec fn earlier_stop(stop: Option<Seq<char>>, m: Seq<char>) -> Seq<char> {
    match stop {
        Some(s) => if text_less(m, s) { m } else { s },
        None => m,
    }
}

/// The next scan's start: the earliest scanned row not sent when there is
/// one (it is scanned again), else the latest row sent (or this scan's start
/// when none was sent).
pub open spec fn next_cursor_of(v: TallyView) -> Seq<char> {
    match v.stop {
        Some(s) => s,
        None => later_text(v.start, v.latest_sent),
    }
}

/// Every scanned row not sent lies at or after the recorded stop.
pub open spec fn stop_bounds_unsent(v: TallyView) -> bool {
    forall|i: int| 0 <= i < v.rows.len() && !(#[trigger] v.rows[i]).1
        ==> v.stop is Some && !text_less(v.rows[i].0, v.stop->0)
}

impl SyncTally {
    #[verifier::type_invariant]
    spec fn tally_ok(self) -> bool {
        stop_bounds_unsent(self@)
    }

    /// Nothing scanned, sent or failed; the scan starts at `cursor`.
    pub fn new(cursor: String) -> (t: Self)
        ensures
            t@.synced == 0,
            t@.errors == 0,
            t@.first_error is None,
            t@.start == cursor@,
            t@.latest_sent == cursor@,
            t@.stop is None,
            t@.rows.len() == 0,
    {
        let latest = cursor.clone();
        SyncTally { synced: 0, errors: 0, first_error: None, start: cursor, latest_sent: latest, stop: None, rows: Ghost(Seq::empty()) }
    }

    /// Records sent so far.
    pub fn synced(&self) -> (r: i64)
        ensures
            r == self@.synced,
    {
        self.synced
    }

    /// Failures so far.
    pub fn errors(&self) -> (r: i64)
        ensures
            r == self@.errors,
    {
        self.errors
    }

    /// The context of the first failure, if any.
    pub fn first_error(&self) -> (r: Option<String>)
        ensures
            opt_text(r) == self@.first_error,
    {
        clone_opt_text(&self.first_error)
    }

    /// One scanned row, last modified at `modified_at`, was sent.
    pub fn record_synced_row(&mut self, modified_at: &str)
        requires
            old(self)@.synced < i64::MAX,
        ensures
            final(self)@ == (TallyView {
                synced: old(self)@.synced + 1,
                latest_sent: later_text(old(self)@.latest_sent, modified_at@),
                rows: old(self)@.rows.push((modified_at@, true)),
                ..old(self)@
            }),
    {
        proof {
            use_type_invariant(&*self);
        }
        self.synced = self.synced + 1;
        if less_text(self.latest_sent.as_str(), modified_at) {
            self.latest_sent = copy_text(modified_at);
        }
        let ghost rows = self.rows@.push((modified_at@, true));
        self.rows = Ghost(rows);
        proof {
            assert forall|i: int| 0 <= i < self@.rows.len() && !(#[trigger] self@.rows[i]).1
                implies self@.stop is Some && !text_less(self@.rows[i].0, self@.stop->0) by {
                assert(self@.rows[i] == old(self)@.rows[i]);
            }
        }
    }

    fn push_unsent(&mut self, modified_at: &str)
        ensures
            final(self)@ == (TallyView {
                stop: Some(earlier_stop(old(self)@.stop, modified_at@)),
                rows: old(self)@.rows.push((modified_at@, false)),
                ..old(self)@
            }),
    {
        proof {
            use_type_invariant(&*self);
            lemma_text_less_irreflexive(modified_at@);
        }
        let ghost old_stop = self@.stop;
        let ghost old_rows = self@.rows;
        let new_stop = match &self.stop {
            Some(s) => {
                if less_text(modified_at, s.as_str()) {
                    copy_text(modified_at)
                } else {
                    s.clone()
                }
            },
            None => copy_text(modified_at),
        };
        proof {
            let ns = earlier_stop(old_stop, modified_at@);
            assert(new_stop@ == ns);
            assert forall|i: int| 0 <= i < old_rows.len() && !(#[trigger] old_rows[i]).1
                implies !text_less(old_rows[i].0, ns) by {
                let s = old_stop->0;
                if text_less(old_rows[i].0, ns) {
                    lemma_text_less_transitive(old_rows[i].0, ns, s);
                }
            }
        }
        self.stop = Some(new_stop);
        let ghost rows = self.rows@.push((modified_at@, false));
        proof {
            assert forall|i: int| 0 <= i < rows.len() && !(#[trigger] rows[i]).1
                implies !text_less(rows[i].0, self@.stop->0) by {
                if i < old_rows.len() {
                    assert(rows[i] == old_rows[i]);
                }
            }
        }
        self.rows = Ghost(rows);
    }

    /// One scanned row, last modified at `modified_at`, failed; `context`
    /// becomes the first error unless an earlier failure was recorded. The
    /// next scan starts no later than this row.
    pub fn record_failed_row(&mut self, context: String, modified_at: &str)
        requires
            old(self)@.errors < i64::MAX,
        ensures
            final(self)@ == (TallyView {
                errors: old(self)@.errors + 1,
                first_error: if old(self)@.first_error is Some { old(self)@.first_error } else { Some(context@) },
                stop: Some(earlier_stop(old(self)@.stop, modified_at@)),
                rows: old(self)@.rows.push((modified_at@, false)),
                ..old(self)@
            }),
    {
        proof {
            use_type_invariant(&*self);
        }
        self.errors = self.errors + 1;
        if self.first_error.is_none() {
            self.first_error = Some(context);
        }
        self.push_unsent(modified_at);
    }

    /// One scanned row, last modified at `modified_at`, was left for a later
    /// batch; the next scan starts no later than this row.
    pub fn record_deferred_row(&mut self, modified_at: &str)
        ensures
            final(self)@ == (TallyView {
                stop: Some(earlier_stop(old(self)@.stop, modified_at@)),
                rows: old(self)@.rows.push((modified_at@, false)),
                ..old(self)@
            }),
    {
        self.push_unsent(modified_at);
    }

    /// One record outside the scan (activity record, preferences, queued
    /// delete) was sent.
    pub fn record_sent(&mut self)
        requires
            old(self)@.synced < i64::MAX,
        ensures
            final(self)@ == (TallyView { synced: old(self)@.synced + 1, ..old(self)@ }),
    {
        proof {
            use_type_invariant(&*self);
        }
        self.synced = self.synced + 1;
    }

    /// One record outside the scan failed; `context` becomes the first
    /// error unless an earlier failure was recorded.
    pub fn record_failure(&mut self, context: String)
        requires
            old(self)@.errors < i64::MAX,
        ensures
            final(self)@ == (TallyView {
                errors: old(self)@.errors + 1,
                first_error: if old(self)@.first_error is Some { old(self)@.first_error } else { Some(context@) },
                ..old(self)@
            }),
    {
        proof {
            use_type_invariant(&*self);
        }
        self.errors = self.errors + 1;
        if self.first_error.is_none() {
            self.first_error = Some(context);
        }
    }

    /// One record outside the scan failed without taking part in the
    /// root-cause report (activity records and queued deletes).
    pub fn record_silent_failure(&mut self)
        requires
            old(self)@.errors < i64::MAX,
        ensures
            final(self)@ == (TallyView { errors: old(self)@.errors + 1, ..old(self)@ }),
    {
        proof {
            use_type_invariant(&*self);
        }
        self.errors = self.errors + 1;
    }

    /// Where the next scan starts: every scanned row that sorts before it was
    /// sent, so the next scan misses no row that was not.
    pub fn next_cursor(&self) -> (r: String)
        ensures
            r@ == next_cursor_of(self@),
            forall|i: int| 0 <= i < self@.rows.len() && text_less((#[trigger] self@.rows[i]).0, r@) ==> self@.rows[i].1,
    {
        proof {
            use_type_invariant(self);
        }
        match &self.stop {
            Some(s) => s.clone(),
            None => {
                if less_text(self.start.as_str(), self.latest_sent.as_str()) {
                    self.latest_sent.clone()
                } else {
                    self.start.clone()
                }
            },
        }
    }
}

/// A table whose rows a queued delete removes from the external database.
#[derive(Clone, Copy, PartialEq, Eq, Debug, Structural)]
pub enum DeleteTarget {
    Clients,
    Tags,
    Projects,
    Tasks,
}

/// The delete target a table name selects.
pub open spec fn delete_target_named(name: Seq<char>) -> Option<DeleteTarget> {
    if name == "clients"@ {
        Some(DeleteTarget::Clients)
    } else if name == "tags"@ {
        Some(DeleteTarget::Tags)
    } else if name == "projects"@ {
        Some(DeleteTarget::Projects)
    } else if name == "tasks"@ {
        Some(DeleteTarget::Tasks)
    } else {
        None
    }
}

/// The delete target of a queued table name; `None` for any other table
/// (such an entry is dropped from the queue unsent).
pub fn delete_target(table_name: &str) -> (r: Option<DeleteTarget>)
    ensures
        r == delete_target_named(table_name@),
{
    if same_text(table_name, "clients") {
        Some(DeleteTarget::Clients)
    } else if same_text(table_name, "tags") {
        Some(DeleteTarget::Tags)
    } else if same_text(table_name, "projects") {
        Some(DeleteTarget::Projects)
    } else if same_text(table_name, "tasks") {
        Some(DeleteTarget::Tasks)
    } else {
        None
    }
}

/// What becomes of a queued delete after a cycle.
#[derive(Clone, Copy, PartialEq, Eq, Debug, Structural)]
pub enum QueueAction {
    /// Take it off the queue.
    Remove,
    /// Keep it and count one more failed attempt.
    CountAttempt,
}

/// A queued delete leaves the queue when its table is unknown (it is never
/// sent) or the external delete succeeded; otherwise it stays with one more
/// failed attempt. `delivered` is whether the external delete succeeded.
pub open spec fn queue_action_for(target: Option<DeleteTarget>, delivered: bool) -> QueueAction {
    if target is None || delivered {
        QueueAction::Remove
    } else {
        QueueAction::CountAttempt
    }
}

/// What to do with a queued delete after the cycle tried it.
pub fn delete_queue_action(target: Option<DeleteTarget>, delivered: bool) -> (r: QueueAction)
    ensures
        r == queue_action_for(target, delivered),
{
    match target {
        None => QueueAction::Remove,
        Some(_) => if delivered { QueueAction::Remove } else { QueueAction::CountAttempt },
    }
}

/// Failed attempts after which a queued delete is no longer retried.
pub const MAX_DELETE_ATTEMPTS: i64 = 5;

/// Whether a queued delete is still retried.
pub fn delete_retryable(attempts: i64) -> (r: bool)
    ensures
        r == (attempts < MAX_DELETE_ATTEMPTS),
{
    attempts < MAX_DELETE_ATTEMPTS
}

/// The device id sent for a row: its own, or this device's when empty.
pub fn row_device_id(raw: String, this_device: &str) -> (r: String)
    ensures
        raw@.len() == 0 ==> r@ == this_device@,
        raw@.len() > 0 ==> r == raw,
{
    if raw.as_str().is_empty() {
        copy_text(this_device)
    } else {
        raw
    }
}

} // verus!
