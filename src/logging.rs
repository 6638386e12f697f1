//! Log records. The library only builds them; the host writes them out.

use vstd::prelude::*;
use vstd::string::StringExecFns;

verus! {

/// How serious a log record is.
#[derive(Debug, PartialEq, Eq, Structural)]
pub enum LogLevel {
    Info,
    Warning,
    Error,
}

/// A line to log.
#[derive(Debug)]
pub struct LogEntry {
    pub level: LogLevel,
    pub message: String,
}

/// An informational record of `message`.
pub fn log_info(message: &str) -> (r: LogEntry)
    ensures
        r.level == LogLevel::Info,
        r.message@ == message@,
{
    LogEntry { level: LogLevel::Info, message: String::from_str(message) }
}

/// A warning record of `message`.
pub fn log_warning(message: &str) -> (r: LogEntry)
    ensures
        r.level == LogLevel::Warning,
        r.message@ == message@,
{
    LogEntry { level: LogLevel::Warning, message: String::from_str(message) }
}

/// An error record of `message`.
pub fn log_error(message: &str) -> (r: LogEntry)
    ensures
        r.level == LogLevel::Error,
        r.message@ == message@,
{
    LogEntry { level: LogLevel::Error, message: String::from_str(message) }
}

} // verus!
