//! Log records: which messages pass the level threshold, how a line reads,
//! and where it goes. Writing the line and reading the clock are left to the
//! caller, which hands the timestamp in.

use vstd::prelude::*;
use vstd::string::StringExecFns;

verus! {

#[derive(Clone, Copy, Debug, PartialEq, Eq, Structural)]
pub enum LogLevel {
    Debug,
    Info,
    Warning,
    Error,
}

#[derive(Clone, Copy, Debug, PartialEq, Eq, Structural)]
pub enum LogTarget {
    Console,
    File,
    Both,
}

#[derive(Clone, Copy, Debug, PartialEq, Eq, Structural)]
pub enum ConsoleStream {
    Stdout,
    Stderr,
}

pub open spec fn level_rank(l: LogLevel) -> nat {
    match l {
        LogLevel::Debug => 0,
        LogLevel::Info => 1,
        LogLevel::Warning => 2,
        LogLevel::Error => 3,
    }
}

pub open spec fn level_label(l: LogLevel) -> Seq<char> {
    match l {
        LogLevel::Debug => "DEBUG"@,
        LogLevel::Info => "INFO"@,
        LogLevel::Warning => "WARNING"@,
        LogLevel::Error => "ERROR"@,
    }
}

/// A log line: the timestamp in brackets, the level, the message, a newline.
pub open spec fn line_text(timestamp: Seq<char>, level: LogLevel, message: Seq<char>) -> Seq<char> {
    "["@ + timestamp + "] "@ + level_label(level) + " "@ + message + "\n"@
}

/// Errors go to standard error and the rest to standard output, where the
/// target includes the console.
pub open spec fn console_for(target: LogTarget, level: LogLevel) -> Option<ConsoleStream> {
    match target {
        LogTarget::File => None,
        _ => if level == LogLevel::Error {
            Some(ConsoleStream::Stderr)
        } else {
            Some(ConsoleStream::Stdout)
        },
    }
}

pub open spec fn writes_file(target: LogTarget) -> bool {
    target != LogTarget::Console
}

impl LogLevel {
    pub fn rank(&self) -> (r: u8)
        ensures
            r as nat == level_rank(*self),
    {
        match self {
            LogLevel::Debug => 0,
            LogLevel::Info => 1,
            LogLevel::Warning => 2,
            LogLevel::Error => 3,
        }
    }

    pub fn label(&self) -> (r: &'static str)
        ensures
            r@ == level_label(*self),
    {
        match self {
            LogLevel::Debug => "DEBUG",
            LogLevel::Info => "INFO",
            LogLevel::Warning => "WARNING",
            LogLevel::Error => "ERROR",
        }
    }
}

/// The threshold and destination of a logger.
#[derive(Clone, Copy, Debug, PartialEq, Eq, Structural)]
pub struct LogSettings {
    pub level: LogLevel,
    pub target: LogTarget,
}

/// A line to write, and where to write it.
pub struct LogRecord {
    pub line: String,
    pub console: Option<ConsoleStream>,
    pub to_file: bool,
}

/// `r` is what logging `message` at `level` under `settings` yields: nothing
/// below the threshold, else the formatted line with its destinations.
pub open spec fn is_record_of(
    r: Option<LogRecord>,
    settings: LogSettings,
    level: LogLevel,
    timestamp: Seq<char>,
    message: Seq<char>,
) -> bool {
    if level_rank(level) < level_rank(settings.level) {
        r is None
    } else {
        r matches Some(rec) && rec.line@ == line_text(timestamp, level, message)
            && rec.console == console_for(settings.target, level)
            && rec.to_file == writes_file(settings.target)
    }
}

impl LogSettings {
    /// Whether this target needs a log file path to be set up.
    pub fn needs_file(&self) -> (r: bool)
        ensures
            r == writes_file(self.target),
    {
        match self.target {
            LogTarget::Console => false,
            _ => true,
        }
    }
}

/// Formats one log line.
pub fn format_line(timestamp: &str, level: LogLevel, message: &str) -> (r: String)
    ensures
        r@ == line_text(timestamp@, level, message@),
{
    let mut s = String::from_str("[");
    s.append(timestamp);
    s.append("] ");
    s.append(level.label());
    s.append(" ");
    s.append(message);
    s.append("\n");
    s
}

/// The name of a log file: the stem, an underscore, the timestamp, a dot, the extension.
pub fn log_file_name(stem: &str, timestamp: &str, extension: &str) -> (r: String)
    ensures
        r@ == stem@ + "_"@ + timestamp@ + "."@ + extension@,
{
    let mut s = String::from_str(stem);
    s.append("_");
    s.append(timestamp);
    s.append(".");
    s.append(extension);
    s
}

/// The record for `message` at `level`, or `None` where the level is below
/// the threshold of `settings`.
pub fn record(settings: &LogSettings, level: LogLevel, timestamp: &str, message: &str) -> (r: Option<LogRecord>)
    ensures
        is_record_of(r, *settings, level, timestamp@, message@),
{
    if level.rank() < settings.level.rank() {
        return None;
    }
    let console = match settings.target {
        LogTarget::File => None,
        _ => match level {
            LogLevel::Error => Some(ConsoleStream::Stderr),
            _ => Some(ConsoleStream::Stdout),
        },
    };
    Some(LogRecord { line: format_line(timestamp, level, message), console, to_file: settings.needs_file() })
}

pub fn debug(settings: &LogSettings, timestamp: &str, message: &str) -> (r: Option<LogRecord>)
    ensures
        is_record_of(r, *settings, LogLevel::Debug, timestamp@, message@),
{
    record(settings, LogLevel::Debug, timestamp, message)
}

pub fn info(settings: &LogSettings, timestamp: &str, message: &str) -> (r: Option<LogRecord>)
    ensures
        is_record_of(r, *settings, LogLevel::Info, timestamp@, message@),
{
    record(settings, LogLevel::Info, timestamp, message)
}

pub fn warning(settings: &LogSettings, timestamp: &str, message: &str) -> (r: Option<LogRecord>)
    ensures
        is_record_of(r, *settings, LogLevel::Warning, timestamp@, message@),
{
    record(settings, LogLevel::Warning, timestamp, message)
}

pub fn error(settings: &LogSettings, timestamp: &str, message: &str) -> (r: Option<LogRecord>)
    ensures
        is_record_of(r, *settings, LogLevel::Error, timestamp@, message@),
{
    record(settings, LogLevel::Error, timestamp, message)
}

} // verus!
