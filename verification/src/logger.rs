//! The decisions of the rotating file logger.
//!
//! The logger writes timestamped records to a terminal and to the newest
//! file of a log directory, keeps at most a fixed number of old files, and
//! hands back the lines of the current file past a cursor. Everything that
//! touches the file system, the clock or the terminal stays outside the
//! library; this module owns the decisions: which records are logged, how a
//! record line is shaped, how many old files rotation removes, and which
//! lines a cursor read returns.

use crate::lines::{byte_lines, lines_of, split_lines};
use vstd::prelude::*;
use vstd::string::StringExecFns;

verus! {

/// The severity levels of a record, most severe first.
#[derive(Clone, Copy, Debug, PartialEq, Eq, Structural)]
pub enum LogLevel {
    Error,
    Warn,
    Info,
    Debug,
    Trace,
}

/// The rank of a level: smaller is more severe.
pub open spec fn level_rank(level: LogLevel) -> int {
    match level {
        LogLevel::Error => 1,
        LogLevel::Warn => 2,
        LogLevel::Info => 3,
        LogLevel::Debug => 4,
        LogLevel::Trace => 5,
    }
}

/// Whether a record at `level` is severe enough to log: everything up to
/// and including the informational level.
pub fn level_enabled(level: LogLevel) -> (r: bool)
    ensures
        r == (level_rank(level) <= level_rank(LogLevel::Info)),
{
    match level {
        LogLevel::Error => true,
        LogLevel::Warn => true,
        LogLevel::Info => true,
        LogLevel::Debug => false,
        LogLevel::Trace => false,
    }
}

/// Whether a record is written at all: its level must be severe enough,
/// and two noisy frame-pacing messages are dropped wholesale.
pub fn should_log(level: LogLevel, msg: &String) -> (r: bool)
    ensures
        r == (level_rank(level) <= level_rank(LogLevel::Info) && msg@
            != "NewEvents emitted without explicit RedrawEventsCleared"@ && msg@
            != "RedrawEventsCleared emitted without explicit MainEventsCleared"@),
{
    if !level_enabled(level) {
        return false;
    }
    let first = "NewEvents emitted without explicit RedrawEventsCleared".to_owned();
    let second = "RedrawEventsCleared emitted without explicit MainEventsCleared".to_owned();
    *msg != first && *msg != second
}

/// The name a level prints under.
pub fn level_name(level: LogLevel) -> (r: &'static str)
    ensures
        r@ == (match level {
            LogLevel::Error => "ERROR"@,
            LogLevel::Warn => "WARN"@,
            LogLevel::Info => "INFO"@,
            LogLevel::Debug => "DEBUG"@,
            LogLevel::Trace => "TRACE"@,
        }),
{
    match level {
        LogLevel::Error => "ERROR",
        LogLevel::Warn => "WARN",
        LogLevel::Info => "INFO",
        LogLevel::Debug => "DEBUG",
        LogLevel::Trace => "TRACE",
    }
}

/// The terminal colour escape a level prints in: green for informational,
/// yellow for warnings, red for errors, the terminal's default otherwise.
pub fn level_color(level: LogLevel) -> (r: &'static str)
    ensures
        r@ == (match level {
            LogLevel::Info => "\x1b[32m"@,
            LogLevel::Warn => "\x1b[33m"@,
            LogLevel::Error => "\x1b[31m"@,
            LogLevel::Debug => "\x1b[0m"@,
            LogLevel::Trace => "\x1b[0m"@,
        }),
{
    match level {
        LogLevel::Info => "\x1b[32m",
        LogLevel::Warn => "\x1b[33m",
        LogLevel::Error => "\x1b[31m",
        LogLevel::Debug => "\x1b[0m",
        LogLevel::Trace => "\x1b[0m",
    }
}

/// The shape of one record in the log file: the timestamp marked as UTC,
/// the level's name, the message, one line.
pub fn format_log_line(timestamp: &str, level: LogLevel, msg: &str) -> (r: String)
    ensures
        r@ == timestamp@ + "Z  "@ + (match level {
            LogLevel::Error => "ERROR"@,
            LogLevel::Warn => "WARN"@,
            LogLevel::Info => "INFO"@,
            LogLevel::Debug => "DEBUG"@,
            LogLevel::Trace => "TRACE"@,
        }) + " "@ + msg@ + "\n"@,
{
    let mut m = timestamp.to_owned();
    m.append("Z  ");
    m.append(level_name(level));
    m.append(" ");
    m.append(msg);
    m.append("\n");
    m
}

/// How many of the oldest files rotation removes so that at most
/// `max_files` stay in place.
pub fn rotation_excess(file_count: usize, max_files: usize) -> (r: usize)
    ensures
        file_count > max_files ==> r == file_count - max_files,
        file_count <= max_files ==> r == 0,
{
    if file_count > max_files {
        file_count - max_files
    } else {
        0
    }
}

/// The lines of the log file past the cursor, and the cursor to continue
/// from: the end of what was read.
pub fn unread_lines(contents: &Vec<u8>, cursor: usize) -> (r: (Vec<Vec<u8>>, usize))
    requires
        cursor <= contents@.len(),
    ensures
        byte_lines(r.0@) == lines_of(contents@.skip(cursor as int)),
        r.1 == contents@.len(),
{
    let mut rest: Vec<u8> = Vec::new();
    let mut i: usize = cursor;
    while i < contents.len()
        invariant
            cursor <= i <= contents@.len(),
            rest@ == contents@.subrange(cursor as int, i as int),
        decreases contents@.len() - i,
    {
        rest.push(contents[i]);
        i = i + 1;
    }
    proof {
        assert(rest@ =~= contents@.skip(cursor as int));
    }
    let lines = split_lines(&rest);
    (lines, contents.len())
}

} // verus!
