//! Rows of the local database.

use vstd::prelude::*;

verus! {

/// A client; the logo path is local and never synced.
pub struct Client {
    pub id: String,
    pub name: String,
    pub color: String,
    pub logo_path: Option<String>,
    pub is_archived: bool,
    pub created_at: String,
    pub modified_at: String,
}

/// A project of a client.
pub struct Project {
    pub id: String,
    pub client_id: String,
    pub name: String,
    pub is_archived: bool,
    pub created_at: String,
    pub modified_at: String,
}

/// A task of a project.
pub struct Task {
    pub id: String,
    pub project_id: String,
    pub name: String,
    pub created_at: String,
    pub modified_at: String,
}

/// A tag.
pub struct Tag {
    pub id: String,
    pub name: String,
    pub created_at: String,
    pub modified_at: String,
}

/// A time entry; no end means the timer is running, and references to
/// deleted projects or tasks are cleared.
pub struct TimeEntry {
    pub id: String,
    pub description: String,
    pub started_at: String,
    pub ended_at: Option<String>,
    pub project_id: Option<String>,
    pub task_id: Option<String>,
    pub is_break: bool,
    pub device_id: String,
    pub created_at: String,
    pub modified_at: String,
}

/// A tag on a time entry.
pub struct TimeEntryTag {
    pub time_entry_id: String,
    pub tag_id: String,
}

/// A recorded foreground window; no sync time means not yet synced.
pub struct WindowActivityRecord {
    pub id: String,
    pub process_name: String,
    pub window_title: String,
    pub window_handle: String,
    pub recorded_at: String,
    pub device_id: String,
    pub synced_at: Option<String>,
}

/// A stored screenshot; the trigger is `interval` or `window_change`.
pub struct Screenshot {
    pub id: String,
    pub file_path: String,
    pub captured_at: String,
    pub window_title: String,
    pub process_name: String,
    pub trigger: String,
    pub device_id: String,
}

/// A queued change for the external database; `operation` is `upsert` or
/// `delete`, `attempts` counts failed tries.
pub struct SyncQueueEntry {
    pub id: i64,
    pub table_name: String,
    pub record_id: String,
    pub operation: String,
    pub queued_at: String,
    pub attempts: i64,
}

} // verus!
