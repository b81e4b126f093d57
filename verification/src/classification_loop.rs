//! Decisions of the background classification loop and of retraining:
//! what a classified record leads to, whether an auto entry is extended or
//! created, the stored source and outcome names, and when to retrain.

use vstd::prelude::*;
use crate::classification::ClassificationSource;
use crate::clock::{parse_rfc3339, rfc3339_instant, seconds_between_wide, whole_seconds_between, Timestamp};

verus! {

/// Total labeled samples needed before the TF-IDF model is trained.
pub const PHASE2_MIN_SAMPLES: i64 = 20;

/// New samples since the last training that trigger a retrain.
pub const RETRAIN_BATCH: i64 = 10;

/// Retrain when at least ten samples arrived since the last training and
/// at least twenty exist.
pub open spec fn retrain_due(total: int, at_last_train: int) -> bool {
    total - at_last_train >= RETRAIN_BATCH && total >= PHASE2_MIN_SAMPLES
}

/// Whether the model should be retrained.
pub fn should_retrain(total: i64, at_last_train: i64) -> (r: bool)
    requires
        i64::MIN <= total - at_last_train <= i64::MAX,
    ensures
        r == retrain_due(total as int, at_last_train as int),
{
    total - at_last_train >= RETRAIN_BATCH && total >= PHASE2_MIN_SAMPLES
}

/// Training needs at least twenty samples.
pub fn enough_samples_to_train(count: i64) -> (r: bool)
    ensures
        r == (count >= PHASE2_MIN_SAMPLES),
{
    count >= PHASE2_MIN_SAMPLES
}

/// The source name stored with a classification event.
pub open spec fn source_name(s: ClassificationSource) -> Seq<char> {
    match s {
        ClassificationSource::Heuristic => "heuristic"@,
        ClassificationSource::TfIdf => "tf_idf"@,
        ClassificationSource::Unclassified => "unclassified"@,
    }
}

/// The source name stored with a classification event.
pub fn source_label(s: ClassificationSource) -> (r: &'static str)
    ensures
        r@ == source_name(s),
{
    match s {
        ClassificationSource::Heuristic => "heuristic",
        ClassificationSource::TfIdf => "tf_idf",
        ClassificationSource::Unclassified => "unclassified",
    }
}

/// What a classified activity record leads to.
#[derive(Clone, Copy, PartialEq, Eq, Debug, Structural)]
pub enum RecordAction {
    /// Auto-classification is off: only mark the record classified.
    MarkOnly,
    /// Confident enough: create or extend an automatic time entry.
    AutoEntry,
    /// Not confident: queue it for the user.
    AskUser,
}

/// The action for a record: nothing while auto-classification is off (the
/// stored flag is 0); an automatic entry at or above the confidence
/// threshold; otherwise a question to the user.
pub open spec fn record_action_for(auto_enabled: i64, confidence_ppm: u32, threshold_ppm: u32) -> RecordAction {
    if auto_enabled == 0 {
        RecordAction::MarkOnly
    } else if confidence_ppm >= threshold_ppm {
        RecordAction::AutoEntry
    } else {
        RecordAction::AskUser
    }
}

/// The action for a classified record.
pub fn record_action(auto_enabled: i64, confidence_ppm: u32, threshold_ppm: u32) -> (r: RecordAction)
    ensures
        r == record_action_for(auto_enabled, confidence_ppm, threshold_ppm),
{
    if auto_enabled == 0 {
        RecordAction::MarkOnly
    } else if confidence_ppm >= threshold_ppm {
        RecordAction::AutoEntry
    } else {
        RecordAction::AskUser
    }
}

/// The outcome stored for an event that was not put to the user because its
/// pattern is snoozed.
pub fn snoozed_outcome() -> (r: &'static str)
    ensures
        r@ == "unclassified"@,
{
    "unclassified"
}

/// The outcome stored for an event that produced an automatic entry.
pub fn auto_outcome() -> (r: &'static str)
    ensures
        r@ == "auto"@,
{
    "auto"
}

/// Whether an automatic entry is extended or a new one created.
pub enum AutoEntryAction {
    /// Move the end of this entry to the record's time.
    Extend(String),
    /// Create a new zero-length automatic entry at the record's time.
    Create,
}

/// The latest automatic entry for the same project and task is extended when
/// both times parse and the record comes 0 to `group_gap_seconds` whole
/// seconds after that entry's end; otherwise a new entry is created.
pub open spec fn extends(ended_at: Seq<char>, recorded_at: Seq<char>, group_gap_seconds: i64) -> bool {
    match (rfc3339_instant(ended_at), rfc3339_instant(recorded_at)) {
        (Some(e), Some(r)) => {
            let gap = whole_seconds_between(Timestamp { secs: r.0, nanos: r.1 }, Timestamp { secs: e.0, nanos: e.1 });
            0 <= gap && gap <= group_gap_seconds
        },
        _ => false,
    }
}

/// Extend the latest matching automatic entry, or create one.
pub fn auto_entry_action(latest: Option<(String, String)>, recorded_at: &str, group_gap_seconds: i64) -> (r: AutoEntryAction)
    ensures
        match latest {
            Some(l) => if extends(l.1@, recorded_at@, group_gap_seconds) {
                r matches AutoEntryAction::Extend(id) && id == l.0
            } else {
                r is Create
            },
            None => r is Create,
        },
{
    match latest {
        None => AutoEntryAction::Create,
        Some((id, ended_at)) => {
            let e = parse_rfc3339(ended_at.as_str());
            let s = parse_rfc3339(recorded_at);
            match (e, s) {
                (Some(end), Some(start)) => {
                    let gap = seconds_between_wide(start, end);
                    if 0 <= gap && gap <= group_gap_seconds as i128 {
                        AutoEntryAction::Extend(id)
                    } else {
                        AutoEntryAction::Create
                    }
                },
                _ => AutoEntryAction::Create,
            }
        },
    }
}

/// The offset of a page of classification events (pages count from 0).
pub fn event_page_offset(page: i64, page_size: i64) -> (r: i64)
    requires
        i64::MIN <= page * page_size <= i64::MAX,
    ensures
        r == page * page_size,
{
    page * page_size
}

/// With auto-classification on, a record becomes an automatic entry exactly
/// when its confidence reaches the user's threshold, whatever that threshold
/// is, and is put to the user otherwise; with it off, the record is only
/// marked.
pub proof fn law_user_threshold_decides(auto_enabled: i64, confidence_ppm: u32, threshold_ppm: u32)
    ensures
        auto_enabled != 0 && confidence_ppm >= threshold_ppm ==> record_action_for(auto_enabled, confidence_ppm, threshold_ppm) == RecordAction::AutoEntry,
        auto_enabled != 0 && confidence_ppm < threshold_ppm ==> record_action_for(auto_enabled, confidence_ppm, threshold_ppm) == RecordAction::AskUser,
        auto_enabled == 0 ==> record_action_for(auto_enabled, confidence_ppm, threshold_ppm) == RecordAction::MarkOnly,
{
}

/// The model is never retrained with fewer than twenty samples, nor with
/// fewer than ten new since the last training; with both it always is.
pub proof fn law_retrain_needs_both_counts(total: int, at_last_train: int)
    ensures
        total < 20 ==> !retrain_due(total, at_last_train),
        total - at_last_train < 10 ==> !retrain_due(total, at_last_train),
        total >= 20 && total - at_last_train >= 10 ==> retrain_due(total, at_last_train),
{
}

} // verus!
