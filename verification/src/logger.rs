//! Log records. The library decides the level and the text of each record;
//! the program that embeds it hands the record to its logger.

use vstd::prelude::*;

verus! {

/// Severity of a log record.
#[derive(Clone, Copy, Debug, PartialEq, Eq, Structural)]
pub enum LogLevel {
    Info,
    Error,
}

/// One line for the log: its level and its text.
pub struct LogRecord {
    pub level: LogLevel,
    pub message: String,
}

/// The record that reports `msg` at the informational level.
pub fn log_info(msg: &str) -> (record: LogRecord)
    ensures
        record.level == LogLevel::Info,
        record.message@ == msg@,
{
    LogRecord { level: LogLevel::Info, message: msg.to_owned() }
}

/// The record that reports `msg` at the error level.
pub fn log_error(msg: &str) -> (record: LogRecord)
    ensures
        record.level == LogLevel::Error,
        record.message@ == msg@,
{
    LogRecord { level: LogLevel::Error, message: msg.to_owned() }
}

} // verus!
