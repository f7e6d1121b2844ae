//! Log records: what the service reports, at which level, and how a line of
//! the log is laid out.

use vstd::prelude::*;
use vstd::string::*;

verus! {

/// How serious a log record is.
#[derive(Clone, Copy, Debug, PartialEq, Eq, Structural)]
pub enum LogLevel {
    Error,
    Warn,
    Info,
    Debug,
    Trace,
}

/// The letter that stands for a level in a line of the log: the first
/// letter of the level's name in capitals.
pub open spec fn level_initial(level: LogLevel) -> char {
    match level {
        LogLevel::Error => 'E',
        LogLevel::Warn => 'W',
        LogLevel::Info => 'I',
        LogLevel::Debug => 'D',
        LogLevel::Trace => 'T',
    }
}

impl LogLevel {
    /// The letter that stands for the level in a line of the log.
    pub fn initial(self) -> (letter: char)
        ensures
            letter == level_initial(self),
    {
        match self {
            LogLevel::Error => 'E',
            LogLevel::Warn => 'W',
            LogLevel::Info => 'I',
            LogLevel::Debug => 'D',
            LogLevel::Trace => 'T',
        }
    }
}

/// One record for the log.
#[derive(Debug)]
pub struct LogRecord {
    pub level: LogLevel,
    pub text: String,
}

/// The model of a `LogRecord`.
pub struct LogRecordView {
    pub level: LogLevel,
    pub text: Seq<char>,
}

impl View for LogRecord {
    type V = LogRecordView;

    open spec fn view(&self) -> LogRecordView {
        LogRecordView { level: self.level, text: self.text@ }
    }
}

/// A record of level `level` whose text is `prefix` followed by `rest`.
pub open spec fn record_of(level: LogLevel, prefix: Seq<char>, rest: Seq<char>) -> LogRecordView {
    LogRecordView { level, text: prefix + rest }
}

/// A record of level `level` whose text is `prefix` followed by `rest`.
pub fn log_record(level: LogLevel, prefix: &str, rest: &str) -> (record: LogRecord)
    ensures
        record@ == record_of(level, prefix@, rest@),
{
    let mut text = prefix.to_owned();
    text.append(rest);
    LogRecord { level, text }
}

/// A line of the log: the time, the level's letter and the message, with one
/// space between them.
pub open spec fn log_line(timestamp: Seq<char>, level: LogLevel, message: Seq<char>) -> Seq<char> {
    timestamp + seq![' ', level_initial(level), ' '] + message
}

/// Lays out a line of the log.
pub fn format_log_line(timestamp: &str, level: LogLevel, message: &str) -> (line: String)
    ensures
        line@ == log_line(timestamp@, level, message@),
{
    let mut line = timestamp.to_owned();
    line.push(' ');
    line.push(level.initial());
    line.push(' ');
    line.append(message);
    assert(line@ =~= log_line(timestamp@, level, message@));
    line
}

} // verus!
