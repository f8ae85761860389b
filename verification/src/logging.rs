//! The log lines that the server writes to standard output and to its log
//! file: which records pass the level filter, and how a line reads.

use vstd::prelude::*;
use vstd::string::*;

verus! {

/// The severity of a log record, from the most to the least severe.
#[derive(Clone, Copy, PartialEq, Eq, Structural)]
pub enum LogLevel {
    Error,
    Warn,
    Info,
    Debug,
    Trace,
}

/// The most verbose severity that is logged, or none at all.
#[derive(Clone, Copy, PartialEq, Eq, Structural)]
pub enum LogFilter {
    Off,
    Error,
    Warn,
    Info,
    Debug,
    Trace,
}

/// The verbosity of a severity (1 for errors up to 5 for traces).
pub open spec fn level_rank(level: LogLevel) -> int {
    match level {
        LogLevel::Error => 1,
        LogLevel::Warn => 2,
        LogLevel::Info => 3,
        LogLevel::Debug => 4,
        LogLevel::Trace => 5,
    }
}

/// The verbosity a filter lets through (0 for none up to 5 for all).
pub open spec fn filter_rank(filter: LogFilter) -> int {
    match filter {
        LogFilter::Off => 0,
        LogFilter::Error => 1,
        LogFilter::Warn => 2,
        LogFilter::Info => 3,
        LogFilter::Debug => 4,
        LogFilter::Trace => 5,
    }
}

/// Whether a record of severity `level` is logged under the filter `max`.
pub fn enabled(level: LogLevel, max: LogFilter) -> (r: bool)
    ensures
        r == (level_rank(level) <= filter_rank(max)),
{
    let l: u8 = match level {
        LogLevel::Error => 1,
        LogLevel::Warn => 2,
        LogLevel::Info => 3,
        LogLevel::Debug => 4,
        LogLevel::Trace => 5,
    };
    let m: u8 = match max {
        LogFilter::Off => 0,
        LogFilter::Error => 1,
        LogFilter::Warn => 2,
        LogFilter::Info => 3,
        LogFilter::Debug => 4,
        LogFilter::Trace => 5,
    };
    l <= m
}

/// The name a severity is written with.
pub open spec fn spec_level_name(level: LogLevel) -> Seq<char> {
    match level {
        LogLevel::Error => "ERROR"@,
        LogLevel::Warn => "WARN"@,
        LogLevel::Info => "INFO"@,
        LogLevel::Debug => "DEBUG"@,
        LogLevel::Trace => "TRACE"@,
    }
}

/// The name a severity is written with.
pub fn level_name(level: LogLevel) -> (r: &'static str)
    ensures
        r@ == spec_level_name(level),
{
    match level {
        LogLevel::Error => "ERROR",
        LogLevel::Warn => "WARN",
        LogLevel::Info => "INFO",
        LogLevel::Debug => "DEBUG",
        LogLevel::Trace => "TRACE",
    }
}

/// A log line: `[<time> <LEVEL> <target>] <message>` and a line break.
pub open spec fn spec_log_line(time: Seq<char>, level: LogLevel, target: Seq<char>, message: Seq<char>) -> Seq<
    char,
> {
    "["@ + time + " "@ + spec_level_name(level) + " "@ + target + "] "@ + message + "\n"@
}

/// Writes a log line for a record.
pub fn log_line(time: &str, level: LogLevel, target: &str, message: &str) -> (r: String)
    ensures
        r@ == spec_log_line(time@, level, target@, message@),
{
    String::from_str("[").concat(time).concat(" ").concat(level_name(level)).concat(" ").concat(
        target,
    ).concat("] ").concat(message).concat("\n")
}

/// How the time of a record is written: a `strftime` pattern for the local
/// time (year, month and day, then hours, minutes and seconds).
pub fn log_time_format() -> (r: &'static str)
    ensures
        r@ == "%Y-%m-%d %H:%M:%S"@,
{
    "%Y-%m-%d %H:%M:%S"
}

/// The line to write for a record under the filter `max`, stamped with
/// `time` (the local time written after `log_time_format`); nothing when the
/// filter holds the record back.
pub fn record_line(level: LogLevel, max: LogFilter, time: &str, target: &str, message: &str) -> (r:
    Option<String>)
    ensures
        match r {
            Some(line) => level_rank(level) <= filter_rank(max) && line@ == spec_log_line(
                time@,
                level,
                target@,
                message@,
            ),
            None => level_rank(level) > filter_rank(max),
        },
{
    if !enabled(level, max) {
        return None;
    }
    Some(log_line(time, level, target, message))
}

/// A record's line names its own level, as the `log` crate writes levels:
/// from the most to the least severe, `ERROR`, `WARN`, `INFO`, `DEBUG`,
/// `TRACE`; the name follows the verbosity that the filter compares, and no
/// two levels share a name.
pub proof fn lines_name_their_own_level(level: LogLevel, other: LogLevel)
    ensures
        level_rank(level) == 1 ==> spec_level_name(level) == "ERROR"@,
        level_rank(level) == 2 ==> spec_level_name(level) == "WARN"@,
        level_rank(level) == 3 ==> spec_level_name(level) == "INFO"@,
        level_rank(level) == 4 ==> spec_level_name(level) == "DEBUG"@,
        level_rank(level) == 5 ==> spec_level_name(level) == "TRACE"@,
        level == LogLevel::Error ==> level_rank(level) == 1,
        level == LogLevel::Warn ==> level_rank(level) == 2,
        level == LogLevel::Info ==> level_rank(level) == 3,
        level == LogLevel::Debug ==> level_rank(level) == 4,
        level == LogLevel::Trace ==> level_rank(level) == 5,
        level != other ==> spec_level_name(level) != spec_level_name(other),
{
    reveal_strlit("ERROR");
    reveal_strlit("WARN");
    reveal_strlit("INFO");
    reveal_strlit("DEBUG");
    reveal_strlit("TRACE");
    assert("ERROR"@[0] != "DEBUG"@[0]);
    assert("ERROR"@[0] != "TRACE"@[0]);
    assert("DEBUG"@[0] != "TRACE"@[0]);
    assert("WARN"@[0] != "INFO"@[0]);
}

/// A filter lets a record through exactly when the record is at least as
/// severe as the filter's level: `Off` lets nothing through, `Error` only
/// errors, `Warn` errors and warnings, `Info` these and information,
/// `Debug` all but traces, and `Trace` everything.
pub proof fn filters_let_through_the_more_severe(level: LogLevel)
    ensures
        !(level_rank(level) <= filter_rank(LogFilter::Off)),
        level_rank(level) <= filter_rank(LogFilter::Error) <==> level == LogLevel::Error,
        level_rank(level) <= filter_rank(LogFilter::Warn) <==> (level == LogLevel::Error || level
            == LogLevel::Warn),
        level_rank(level) <= filter_rank(LogFilter::Info) <==> (level == LogLevel::Error || level
            == LogLevel::Warn || level == LogLevel::Info),
        level_rank(level) <= filter_rank(LogFilter::Debug) <==> level != LogLevel::Trace,
        level_rank(level) <= filter_rank(LogFilter::Trace),
{
}

/// A log line is the time in brackets with the level's name and the
/// target, then the message and a line break: `[<time> <LEVEL> <target>]
/// <message>`.
pub proof fn log_lines_have_their_parts_in_order(time: Seq<char>, level: LogLevel, target: Seq<char>, message: Seq<char>)
    ensures
        spec_log_line(time, level, target, message) =~= seq!['['] + time + seq![' '] + spec_level_name(level)
            + seq![' '] + target + seq![']', ' '] + message + seq!['\n'],
{
    reveal_strlit("[");
    reveal_strlit(" ");
    reveal_strlit("] ");
    reveal_strlit("\n");
    assert("["@ =~= seq!['[']);
    assert(" "@ =~= seq![' ']);
    assert("] "@ =~= seq![']', ' ']);
    assert("\n"@ =~= seq!['\n']);
}

} // verus!
