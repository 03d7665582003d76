//! Level-gated log lines for the host's log function.

use vstd::prelude::*;
use crate::text::{lower_of, to_lowercase, str_eq, strip_nul, without_nul};

verus! {

pub const LOG_LEVEL_DEBUG: i32 = -1;
pub const LOG_LEVEL_INFO: i32 = 0;
pub const LOG_LEVEL_WARN: i32 = 1;
pub const LOG_LEVEL_ERROR: i32 = 2;
pub const LOG_LEVEL_NONE: i32 = 3;

/// How much the middleware logs.
#[derive(Clone, Copy, Debug, PartialEq, Eq, Structural)]
pub enum LogLevel {
    Debug,
    Info,
    Warn,
    Error,
    Off,
}

/// The host's number for `level`.
pub open spec fn level_code(level: LogLevel) -> i32 {
    match level {
        LogLevel::Debug => LOG_LEVEL_DEBUG,
        LogLevel::Info => LOG_LEVEL_INFO,
        LogLevel::Warn => LOG_LEVEL_WARN,
        LogLevel::Error => LOG_LEVEL_ERROR,
        LogLevel::Off => LOG_LEVEL_NONE,
    }
}

/// The level a lower-case name stands for; unknown names turn logging off.
pub open spec fn level_named(s: Seq<char>) -> LogLevel {
    if s == "debug"@ {
        LogLevel::Debug
    } else if s == "info"@ {
        LogLevel::Info
    } else if s == "warn"@ || s == "warning"@ {
        LogLevel::Warn
    } else if s == "error"@ {
        LogLevel::Error
    } else {
        LogLevel::Off
    }
}

impl Default for LogLevel {
    fn default() -> (r: LogLevel)
        ensures
            r == LogLevel::Off,
    {
        LogLevel::Off
    }
}

impl LogLevel {
    /// The host's number for this level: Debug -1, Info 0, Warn 1, Error 2,
    /// Off 3.
    pub fn as_i32(&self) -> (r: i32)
        ensures
            r == level_code(*self),
    {
        match self {
            LogLevel::Debug => LOG_LEVEL_DEBUG,
            LogLevel::Info => LOG_LEVEL_INFO,
            LogLevel::Warn => LOG_LEVEL_WARN,
            LogLevel::Error => LOG_LEVEL_ERROR,
            LogLevel::Off => LOG_LEVEL_NONE,
        }
    }

    /// The level an already lower-cased name stands for.
    pub fn from_lowercase(s: &str) -> (r: LogLevel)
        ensures
            r == level_named(s@),
    {
        if str_eq(s, "debug") {
            LogLevel::Debug
        } else if str_eq(s, "info") {
            LogLevel::Info
        } else if str_eq(s, "warn") || str_eq(s, "warning") {
            LogLevel::Warn
        } else if str_eq(s, "error") {
            LogLevel::Error
        } else {
            LogLevel::Off
        }
    }

    /// The level a name stands for, ignoring case; unknown names give `Off`.
    pub fn from_str(s: &str) -> (r: LogLevel)
        ensures
            r == level_named(lower_of(s@)),
    {
        let lowered = to_lowercase(s);
        Self::from_lowercase(lowered.as_str())
    }
}

/// A line for the host's log function.
pub struct LogLine {
    pub level: i32,
    pub message: String,
}

/// The level below which lines are dropped.
pub struct Logger {
    pub level: i32,
}

/// A logger that lets through lines at `level` and above.
pub fn init(level: LogLevel) -> (r: Logger)
    ensures
        r.level == level_code(level),
{
    Logger { level: level.as_i32() }
}

/// Whether a line at `level` passes a logger set to `threshold`.
pub open spec fn emits(threshold: i32, level: LogLevel) -> bool {
    level != LogLevel::Off && level_code(level) >= threshold
}

/// The line to send for `message` at `level`, or `None` when the logger
/// drops it. NUL characters are left out of the message.
pub fn log(logger: &Logger, level: LogLevel, message: &str) -> (r: Option<LogLine>)
    ensures
        r is Some <==> emits(logger.level, level),
        r matches Some(line) ==> line.level == level_code(level) && line.message@ == without_nul(
            message@,
        ),
{
    if level.as_i32() >= logger.level {
        match level {
            LogLevel::Debug => Some(log_debug(message)),
            LogLevel::Info => Some(log_info(message)),
            LogLevel::Warn => Some(log_warn(message)),
            LogLevel::Error => Some(log_error(message)),
            LogLevel::Off => None,
        }
    } else {
        None
    }
}

/// A debug line for `message`.
pub fn log_debug(message: &str) -> (r: LogLine)
    ensures
        r.level == LOG_LEVEL_DEBUG,
        r.message@ == without_nul(message@),
{
    LogLine { level: LOG_LEVEL_DEBUG, message: strip_nul(message) }
}

/// An info line for `message`.
pub fn log_info(message: &str) -> (r: LogLine)
    ensures
        r.level == LOG_LEVEL_INFO,
        r.message@ == without_nul(message@),
{
    LogLine { level: LOG_LEVEL_INFO, message: strip_nul(message) }
}

/// A warning line for `message`.
pub fn log_warn(message: &str) -> (r: LogLine)
    ensures
        r.level == LOG_LEVEL_WARN,
        r.message@ == without_nul(message@),
{
    LogLine { level: LOG_LEVEL_WARN, message: strip_nul(message) }
}

/// An error line for `message`.
pub fn log_error(message: &str) -> (r: LogLine)
    ensures
        r.level == LOG_LEVEL_ERROR,
        r.message@ == without_nul(message@),
{
    LogLine { level: LOG_LEVEL_ERROR, message: strip_nul(message) }
}

} // verus!
