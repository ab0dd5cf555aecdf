//! What the service logs, and which records it keeps.

use vstd::prelude::*;

use crate::status::{status_display, StatusCode};

verus! {

/// The level of a log record, most severe first.
#[derive(Clone, Copy, Debug, PartialEq, Eq, Structural)]
pub enum LogLevel {
    Error,
    Warn,
    Info,
    Debug,
    Trace,
}

/// The rank of a level: 1 for `Error` up to 5 for `Trace`.
pub open spec fn level_rank(level: LogLevel) -> nat {
    match level {
        LogLevel::Error => 1,
        LogLevel::Warn => 2,
        LogLevel::Info => 3,
        LogLevel::Debug => 4,
        LogLevel::Trace => 5,
    }
}

/// The name a level prints as.
pub open spec fn level_name(level: LogLevel) -> Seq<char> {
    match level {
        LogLevel::Error => "ERROR"@,
        LogLevel::Warn => "WARN"@,
        LogLevel::Info => "INFO"@,
        LogLevel::Debug => "DEBUG"@,
        LogLevel::Trace => "TRACE"@,
    }
}

/// Levels are ranked strictly by severity, `Error` first and `Trace` last,
/// and the records kept are exactly those at `Info` or more severe.
pub proof fn levels_ordered_by_severity(level: LogLevel)
    ensures
        level_rank(LogLevel::Error) < level_rank(LogLevel::Warn),
        level_rank(LogLevel::Warn) < level_rank(LogLevel::Info),
        level_rank(LogLevel::Info) < level_rank(LogLevel::Debug),
        level_rank(LogLevel::Debug) < level_rank(LogLevel::Trace),
        (level_rank(level) <= level_rank(LogLevel::Info)) <==> (level == LogLevel::Error
            || level == LogLevel::Warn || level == LogLevel::Info),
{
}

/// Whether a record of `level` is kept: those at `Info` or more severe.
pub fn enabled(level: LogLevel) -> (b: bool)
    ensures
        b == (level_rank(level) <= level_rank(LogLevel::Info)),
        b <==> (level == LogLevel::Error || level == LogLevel::Warn || level == LogLevel::Info),
{
    match level {
        LogLevel::Error | LogLevel::Warn | LogLevel::Info => true,
        LogLevel::Debug | LogLevel::Trace => false,
    }
}

fn level_text(level: LogLevel) -> (s: &'static str)
    ensures
        s@ == level_name(level),
{
    match level {
        LogLevel::Error => "ERROR",
        LogLevel::Warn => "WARN",
        LogLevel::Info => "INFO",
        LogLevel::Debug => "DEBUG",
        LogLevel::Trace => "TRACE",
    }
}

/// The line written to the log file for a record: `"<LEVEL> - <message> \n"`.
pub fn log_line(level: LogLevel, message: &str) -> (line: String)
    ensures
        line@ == level_name(level) + " - "@ + message@ + " \n"@,
{
    let mut line = String::from_str(level_text(level));
    line.append(" - ");
    line.append(message);
    line.append(" \n");
    line
}

/// The access-log message for a request: method, path and the status of the
/// response, separated by spaces.
pub fn access_line(method: &str, uri: &str, status: StatusCode) -> (line: String)
    ensures
        line@ == method@ + " "@ + uri@ + " "@ + status_display(status@),
{
    let mut line = String::from_str(method);
    line.append(" ");
    line.append(uri);
    line.append(" ");
    let s = status.to_string();
    line.append(s.as_str());
    line
}

} // verus!
