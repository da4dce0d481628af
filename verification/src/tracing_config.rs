//! Log levels: their numeric order, the file log level that can be changed at run time,
//! and how messages from the frontend are turned into log events.

use vstd::prelude::*;
use crate::text::{str_equals, str_lowercase_mapping, str_to_lowercase};

verus! {

/// A log level, from most to least severe.
#[derive(Clone, Copy, Debug, PartialEq, Eq, Structural)]
pub enum LogLevel {
    Error,
    Warn,
    Info,
    Debug,
    Trace,
}

/// The numeric rank of a level: 1 for errors up to 5 for traces.
pub open spec fn level_rank(level: LogLevel) -> u8 {
    match level {
        LogLevel::Error => 1,
        LogLevel::Warn => 2,
        LogLevel::Info => 3,
        LogLevel::Debug => 4,
        LogLevel::Trace => 5,
    }
}

pub fn level_to_u8(level: LogLevel) -> (r: u8)
    ensures
        r == level_rank(level),
{
    match level {
        LogLevel::Error => 1,
        LogLevel::Warn => 2,
        LogLevel::Info => 3,
        LogLevel::Debug => 4,
        LogLevel::Trace => 5,
    }
}

/// The level up to which events are written to the log file, as a rank.
#[derive(Clone, Copy, Debug, PartialEq, Eq, Structural)]
pub struct FileLogLevel {
    pub rank: u8,
}

impl FileLogLevel {
    /// The file log level at start-up: debug.
    pub fn new() -> (r: Self)
        ensures
            r.rank == level_rank(LogLevel::Debug),
    {
        FileLogLevel { rank: 4 }
    }
}

/// Sets the file log level.
pub fn set_file_log_level(file_level: &mut FileLogLevel, level: LogLevel)
    ensures
        final(file_level).rank == level_rank(level),
{
    file_level.rank = level_to_u8(level);
}

/// Whether an event of the given level is written to the log file.
pub fn file_log_allows(file_level: &FileLogLevel, event_level: LogLevel) -> (r: bool)
    ensures
        r == (level_rank(event_level) <= file_level.rank),
{
    level_to_u8(event_level) <= file_level.rank
}

/// Setting the file log level to `l` lets through exactly the events at least as severe
/// as `l`.
pub proof fn law_file_level_filters_by_severity(l: LogLevel, e: LogLevel)
    ensures
        level_rank(e) <= level_rank(l) <==> (l == LogLevel::Trace || (l == LogLevel::Debug && e
            != LogLevel::Trace) || (l == LogLevel::Info && (e == LogLevel::Error || e
            == LogLevel::Warn || e == LogLevel::Info)) || (l == LogLevel::Warn && (e
            == LogLevel::Error || e == LogLevel::Warn)) || (l == LogLevel::Error && e
            == LogLevel::Error)),
{
}

/// The level a frontend message is logged at: its level name, case-insensitively, and
/// info for an unknown name.
pub open spec fn frontend_level(level: Seq<char>) -> LogLevel {
    let l = str_lowercase_mapping(level);
    if l == "error"@ {
        LogLevel::Error
    } else if l == "warn"@ {
        LogLevel::Warn
    } else if l == "info"@ {
        LogLevel::Info
    } else if l == "debug"@ {
        LogLevel::Debug
    } else if l == "trace"@ {
        LogLevel::Trace
    } else {
        LogLevel::Info
    }
}

/// A log event for a message from the frontend, with the session it belongs to.
#[derive(Clone, Debug, PartialEq, Eq)]
pub struct FrontendLogEvent {
    pub level: LogLevel,
    pub session: String,
    pub target: String,
    pub message: String,
}

/// The event to log for a frontend message: its level, the session ID (or "-" when there
/// is none), the target and the message.
pub fn log_from_frontend(level: &str, session_id: Option<&str>, target: &str, message: &str) -> (r:
    FrontendLogEvent)
    ensures
        r.level == frontend_level(level@),
        r.session@ == (match session_id {
            Some(s) => s@,
            None => "-"@,
        }),
        r.target@ == target@,
        r.message@ == message@,
{
    let session = match session_id {
        Some(s) => s.to_string(),
        None => "-".to_string(),
    };
    let lower = str_to_lowercase(level);
    let l = lower.as_str();
    let lvl = if str_equals(l, "error") {
        LogLevel::Error
    } else if str_equals(l, "warn") {
        LogLevel::Warn
    } else if str_equals(l, "info") {
        LogLevel::Info
    } else if str_equals(l, "debug") {
        LogLevel::Debug
    } else if str_equals(l, "trace") {
        LogLevel::Trace
    } else {
        LogLevel::Info
    };
    FrontendLogEvent {
        level: lvl,
        session,
        target: target.to_string(),
        message: message.to_string(),
    }
}

} // verus!
