//! User preferences: the first-launch defaults and partial updates.

use vstd::prelude::*;
use crate::text::copy_text;

verus! {

/// The singleton preferences row. The notification threshold (fractional
/// hours) is carried as the bit pattern of its `f64` value.
pub struct UserPreferences {
    pub id: i64,
    pub local_timezone: String,
    pub inactivity_timeout_seconds: i64,
    pub screenshot_interval_seconds: i64,
    pub screenshot_retention_days: i64,
    pub screenshot_storage_path: Option<String>,
    pub timer_notification_threshold_hours_bits: u64,
    pub page_size: i64,
    /// Flag only; the connection URI lives in the OS keychain.
    pub external_db_uri_stored: bool,
    pub external_db_enabled: bool,
    pub notification_channels_json: Option<String>,
    pub process_deny_list_json: String,
}

/// Bit pattern of the `f64` value 8.0 (hours).
pub const EIGHT_HOURS_F64_BITS: u64 = 0x4020_0000_0000_0000;

/// The process deny list seeded on first launch.
pub open spec fn default_deny_list() -> Seq<char> {
    "[\"keepass\",\"1password\",\"bitwarden\",\"lastpass\"]"@
}

/// The preferences seeded on first launch: 5-minute inactivity timeout and
/// screenshot interval, 30-day retention, default storage path, UTC, 25 rows
/// a page, the password-manager deny list, no external database, no
/// notification channels, 8-hour timer notification.
pub fn default_preferences() -> (p: UserPreferences)
    ensures
        p.id == 1,
        p.inactivity_timeout_seconds == 300,
        p.screenshot_interval_seconds == 300,
        p.screenshot_retention_days == 30,
        p.screenshot_storage_path is None,
        p.local_timezone@ == "UTC"@,
        p.page_size == 25,
        p.process_deny_list_json@ == default_deny_list(),
        !p.external_db_uri_stored,
        !p.external_db_enabled,
        p.notification_channels_json is None,
        p.timer_notification_threshold_hours_bits == EIGHT_HOURS_F64_BITS,
{
    UserPreferences {
        id: 1,
        local_timezone: copy_text("UTC"),
        inactivity_timeout_seconds: 300,
        screenshot_interval_seconds: 300,
        screenshot_retention_days: 30,
        screenshot_storage_path: None,
        timer_notification_threshold_hours_bits: EIGHT_HOURS_F64_BITS,
        page_size: 25,
        external_db_uri_stored: false,
        external_db_enabled: false,
        notification_channels_json: None,
        process_deny_list_json: copy_text("[\"keepass\",\"1password\",\"bitwarden\",\"lastpass\"]"),
    }
}

/// A partial update: only present fields change.
pub struct PreferencesUpdateRequest {
    pub local_timezone: Option<String>,
    pub inactivity_timeout_seconds: Option<i64>,
    pub screenshot_interval_seconds: Option<i64>,
    pub screenshot_retention_days: Option<i64>,
    pub screenshot_storage_path: Option<String>,
    pub timer_notification_threshold_hours_bits: Option<u64>,
    pub page_size: Option<i64>,
    pub external_db_enabled: Option<bool>,
    pub notification_channels_json: Option<String>,
    pub process_deny_list_json: Option<String>,
}

/// A present value, else the current one.
pub open spec fn updated<T>(update: Option<T>, current: T) -> T {
    match update {
        Some(v) => v,
        None => current,
    }
}

/// The preferences after an update. The id and the stored-URI flag never
/// change here (the flag belongs to the sync configuration).
pub open spec fn preferences_after(current: UserPreferences, u: PreferencesUpdateRequest) -> UserPreferences {
    UserPreferences {
        id: current.id,
        local_timezone: updated(u.local_timezone, current.local_timezone),
        inactivity_timeout_seconds: updated(u.inactivity_timeout_seconds, current.inactivity_timeout_seconds),
        screenshot_interval_seconds: updated(u.screenshot_interval_seconds, current.screenshot_interval_seconds),
        screenshot_retention_days: updated(u.screenshot_retention_days, current.screenshot_retention_days),
        screenshot_storage_path: if u.screenshot_storage_path is Some { u.screenshot_storage_path } else { current.screenshot_storage_path },
        timer_notification_threshold_hours_bits: updated(u.timer_notification_threshold_hours_bits, current.timer_notification_threshold_hours_bits),
        page_size: updated(u.page_size, current.page_size),
        external_db_uri_stored: current.external_db_uri_stored,
        external_db_enabled: updated(u.external_db_enabled, current.external_db_enabled),
        notification_channels_json: if u.notification_channels_json is Some { u.notification_channels_json } else { current.notification_channels_json },
        process_deny_list_json: updated(u.process_deny_list_json, current.process_deny_list_json),
    }
}

/// Apply a partial update to the current preferences.
pub fn apply_preferences_update(current: UserPreferences, update: PreferencesUpdateRequest) -> (r: UserPreferences)
    ensures
        r == preferences_after(current, update),
{
    let mut p = current;
    if let Some(v) = update.local_timezone { p.local_timezone = v; }
    if let Some(v) = update.inactivity_timeout_seconds { p.inactivity_timeout_seconds = v; }
    if let Some(v) = update.screenshot_interval_seconds { p.screenshot_interval_seconds = v; }
    if let Some(v) = update.screenshot_retention_days { p.screenshot_retention_days = v; }
    if update.screenshot_storage_path.is_some() { p.screenshot_storage_path = update.screenshot_storage_path; }
    if let Some(v) = update.timer_notification_threshold_hours_bits { p.timer_notification_threshold_hours_bits = v; }
    if let Some(v) = update.page_size { p.page_size = v; }
    if let Some(v) = update.external_db_enabled { p.external_db_enabled = v; }
    if let Some(v) = update.notification_channels_json { p.notification_channels_json = Some(v); }
    if let Some(v) = update.process_deny_list_json { p.process_deny_list_json = v; }
    p
}

/// An update that changes nothing leaves the preferences as they were.
pub proof fn law_empty_update_keeps_preferences(current: UserPreferences, u: PreferencesUpdateRequest)
    requires
        u.local_timezone is None,
        u.inactivity_timeout_seconds is None,
        u.screenshot_interval_seconds is None,
        u.screenshot_retention_days is None,
        u.screenshot_storage_path is None,
        u.timer_notification_threshold_hours_bits is None,
        u.page_size is None,
        u.external_db_enabled is None,
        u.notification_channels_json is None,
        u.process_deny_list_json is None,
    ensures
        preferences_after(current, u) == current,
{
}

/// Applying the same update twice is the same as applying it once.
pub proof fn law_update_idempotent(current: UserPreferences, u: PreferencesUpdateRequest)
    ensures
        preferences_after(preferences_after(current, u), u) == preferences_after(current, u),
{
}

} // verus!
