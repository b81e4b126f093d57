//! Decisions of the composite logger: level numbers, the log-file settings,
//! which records reach the file, and the JSON line written for a record.

use vstd::prelude::*;
use vstd::string::StringExecFns;
use crate::text::{lowercase, same_text, to_lowercase};

verus! {

/// Severity of a log record.
#[derive(Clone, Copy, PartialEq, Eq, Debug, Structural)]
pub enum LogLevel {
    Error,
    Warn,
    Info,
    Debug,
    Trace,
}

/// The file threshold number of a record level: 1 error, 2 warning, 3 info,
/// 4 debug and trace.
pub open spec fn level_number(level: LogLevel) -> u8 {
    match level {
        LogLevel::Error => 1,
        LogLevel::Warn => 2,
        LogLevel::Info => 3,
        LogLevel::Debug => 4,
        LogLevel::Trace => 4,
    }
}

/// The threshold number of a record level.
pub fn log_level_to_u8(level: LogLevel) -> (r: u8)
    ensures
        r == level_number(level),
{
    match level {
        LogLevel::Error => 1,
        LogLevel::Warn => 2,
        LogLevel::Info => 3,
        LogLevel::Debug => 4,
        LogLevel::Trace => 4,
    }
}

/// The threshold number of a user-facing level name, case-insensitively:
/// error 1, warning/warn 2, info 3, trace 4, anything else 3.
pub open spec fn level_name_number(name: Seq<char>) -> u8 {
    let l = lowercase(name);
    if l == "error"@ {
        1
    } else if l == "warning"@ || l == "warn"@ {
        2
    } else if l == "info"@ {
        3
    } else if l == "trace"@ {
        4
    } else {
        3
    }
}

/// The threshold number of a level name stored in the preferences.
pub fn level_str_to_u8(level: &str) -> (r: u8)
    ensures
        r == level_name_number(level@),
{
    let l = to_lowercase(level);
    let s = l.as_str();
    if same_text(s, "error") {
        1
    } else if same_text(s, "warning") || same_text(s, "warn") {
        2
    } else if same_text(s, "info") {
        3
    } else if same_text(s, "trace") {
        4
    } else {
        3
    }
}

/// Whether records go to the log file, and the highest level number written.
#[derive(Clone, Copy, PartialEq, Eq, Debug, Structural)]
pub struct LoggingSettings {
    pub enabled: bool,
    pub level: u8,
}

/// The log-file settings for an enabled flag and a level name; they take
/// effect without reopening the file.
pub fn update_logging_settings(enabled: bool, level: &str) -> (r: LoggingSettings)
    ensures
        r.enabled == enabled,
        r.level == level_name_number(level@),
{
    LoggingSettings { enabled, level: level_str_to_u8(level) }
}

/// Whether a record of this level is written to the log file.
pub fn file_accepts(settings: LoggingSettings, level: LogLevel) -> (r: bool)
    ensures
        r == (settings.enabled && level_number(level) <= settings.level),
{
    settings.enabled && log_level_to_u8(level) <= settings.level
}

/// The upper-case name of a level as it appears in the log file.
pub open spec fn level_label(level: LogLevel) -> Seq<char> {
    match level {
        LogLevel::Error => "ERROR"@,
        LogLevel::Warn => "WARN"@,
        LogLevel::Info => "INFO"@,
        LogLevel::Debug => "DEBUG"@,
        LogLevel::Trace => "TRACE"@,
    }
}

fn level_text(level: LogLevel) -> (r: &'static str)
    ensures
        r@ == level_label(level),
{
    match level {
        LogLevel::Error => "ERROR",
        LogLevel::Warn => "WARN",
        LogLevel::Info => "INFO",
        LogLevel::Debug => "DEBUG",
        LogLevel::Trace => "TRACE",
    }
}

/// What `serde_json::to_string` gives for a text: its JSON string literal,
/// or `None` when serialization reports an error.
pub uninterp spec fn json_string(s: Seq<char>) -> Option<Seq<char>>;

/// Serializes a text with `serde_json::to_string`; the result is named
/// `json_string` of the text.
#[verifier::external_body]
fn json_quote(s: &str) -> (r: Option<String>)
    ensures
        match r {
            Some(t) => json_string(s@) == Some(t@),
            None => json_string(s@) is None,
        },
{
    serde_json::to_string(s).ok()
}

/// The JSON line written to the log file for a record.
pub open spec fn log_line(ts: Seq<char>, level: LogLevel, component: Seq<char>, message: Seq<char>) -> Seq<char> {
    let msg = match json_string(message) {
        Some(m) => m,
        None => "\"\""@,
    };
    "{\"ts\":\""@ + ts + "\",\"level\":\""@ + level_label(level) + "\",\"component\":\""@ + component
        + "\",\"message\":"@ + msg + "}"@
}

/// The JSON line for a log record: timestamp, upper-case level, component
/// (the record's target) and the message as a JSON string.
pub fn file_log_line(ts: &str, level: LogLevel, component: &str, message: &str) -> (r: String)
    ensures
        r@ == log_line(ts@, level, component@, message@),
{
    let quoted = json_quote(message);
    let mut line = String::new();
    line.append("{\"ts\":\"");
    line.append(ts);
    line.append("\",\"level\":\"");
    line.append(level_text(level));
    line.append("\",\"component\":\"");
    line.append(component);
    line.append("\",\"message\":");
    match &quoted {
        Some(m) => line.append(m.as_str()),
        None => line.append("\"\""),
    }
    line.append("}");
    proof {
        let msg = match json_string(message@) {
            Some(m) => m,
            None => "\"\""@,
        };
        assert(line@ =~= log_line(ts@, level, component@, message@));
    }
    line
}

} // verus!
