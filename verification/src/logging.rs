//! Structured log entries: a severity and a message.

use vstd::prelude::*;

verus! {

/// Severity of a log entry, from least to most urgent.
#[derive(Clone, Copy, Debug, PartialEq, Eq, Structural)]
pub enum LogSeverity {
    DEBUG,
    INFO,
    NOTICE,
    WARNING,
    ERROR,
}

/// One entry of the structured log.
#[derive(Debug)]
pub struct LogEntry {
    severity: LogSeverity,
    message: String,
}

/// What a [`LogEntry`] holds, as mathematical values.
pub struct LogEntryView {
    pub severity: LogSeverity,
    pub message: Seq<char>,
}

impl View for LogEntry {
    type V = LogEntryView;

    closed spec fn view(&self) -> LogEntryView {
        LogEntryView { severity: self.severity, message: self.message@ }
    }
}

impl LogEntry {
    /// The entry's severity.
    pub fn severity(&self) -> (severity: LogSeverity)
        ensures
            severity == self@.severity,
    {
        self.severity
    }

    /// The entry's message.
    pub fn message(&self) -> (message: &str)
        ensures
            message@ == self@.message,
    {
        self.message.as_str()
    }
}

/// A list of entries with each entry taken by its view.
pub open spec fn entries_view(entries: Seq<LogEntry>) -> Seq<LogEntryView> {
    entries.map_values(|entry: LogEntry| entry@)
}

/// Makes the entry with the given severity and message.
pub fn log(severity: LogSeverity, message: String) -> (entry: LogEntry)
    ensures
        entry@ == (LogEntryView { severity, message: message@ }),
{
    LogEntry { severity, message }
}

/// Makes a `DEBUG` entry with the given message.
pub fn log_debug(msg: String) -> (entry: LogEntry)
    ensures
        entry@ == (LogEntryView { severity: LogSeverity::DEBUG, message: msg@ }),
{
    log(LogSeverity::DEBUG, msg)
}

/// Makes a `NOTICE` entry with the given message.
pub fn log_notice(msg: String) -> (entry: LogEntry)
    ensures
        entry@ == (LogEntryView { severity: LogSeverity::NOTICE, message: msg@ }),
{
    log(LogSeverity::NOTICE, msg)
}

/// Makes an `ERROR` entry with the given message.
pub fn log_err(msg: String) -> (entry: LogEntry)
    ensures
        entry@ == (LogEntryView { severity: LogSeverity::ERROR, message: msg@ }),
{
    log(LogSeverity::ERROR, msg)
}

} // verus!
