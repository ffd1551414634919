//! Severity of lines in the multi-service log viewer, read from the line's
//! level text.
use vstd::prelude::*;

use crate::text::{contains, lower_of, seq_contains, to_lowercase};

verus! {

/// Severity of a log entry.
#[derive(Clone, Copy, Debug, PartialEq, Eq, Structural)]
pub enum LogLevel {
    Error,
    Warn,
    Info,
    Debug,
    Unknown,
}

/// The severity that a level text names, matched case-insensitively.
pub open spec fn level_of(s: Seq<char>) -> LogLevel {
    let lower = lower_of(s);
    if seq_contains(lower, "error"@) || seq_contains(lower, "err"@) {
        LogLevel::Error
    } else if seq_contains(lower, "warn"@) {
        LogLevel::Warn
    } else if seq_contains(lower, "info"@) {
        LogLevel::Info
    } else if seq_contains(lower, "debug"@) || seq_contains(lower, "trace"@) {
        LogLevel::Debug
    } else {
        LogLevel::Unknown
    }
}

impl LogLevel {
    /// Reads a severity from level text such as "ERROR" or "warning".
    pub fn from_str(s: &str) -> (r: LogLevel)
        ensures
            r == level_of(s@),
    {
        let lower = to_lowercase(s);
        let l = lower.as_str();
        if contains(l, "error") || contains(l, "err") {
            LogLevel::Error
        } else if contains(l, "warn") {
            LogLevel::Warn
        } else if contains(l, "info") {
            LogLevel::Info
        } else if contains(l, "debug") || contains(l, "trace") {
            LogLevel::Debug
        } else {
            LogLevel::Unknown
        }
    }

    /// Three-letter badge shown before each line.
    pub fn badge(&self) -> (r: &'static str)
        ensures
            r@ == match *self {
                LogLevel::Error => "ERR"@,
                LogLevel::Warn => "WRN"@,
                LogLevel::Info => "INF"@,
                LogLevel::Debug => "DBG"@,
                LogLevel::Unknown => "---"@,
            },
    {
        match self {
            LogLevel::Error => "ERR",
            LogLevel::Warn => "WRN",
            LogLevel::Info => "INF",
            LogLevel::Debug => "DBG",
            LogLevel::Unknown => "---",
        }
    }
}

} // verus!
