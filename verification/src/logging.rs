//! Log levels and the text of log lines.
//!
//! A logger decides whether a message is written at its level and builds
//! the line. Writing the line to a stream is left to the caller.

use vstd::prelude::*;
use vstd::string::*;
use vstd::std_specs::convert::FromSpecImpl;
use crate::text::{ends_with_char, uppercase};
use crate::time_tools::{now_as_string, ClockReading};

verus! {

/// The environment variable that selects the log level.
pub const LOG_LEVEL_VARIABLE: &'static str = "DDNS_LOG_LEVEL";

/// How severe a log message is, the least severe first.
#[derive(Debug, Clone, Copy, PartialEq, Eq, PartialOrd, Ord, Structural)]
pub enum LogLevel {
    DEBUG,
    INFO,
    WARNING,
    ERROR,
}

impl LogLevel {
    /// The place of the level in the order of severity.
    pub open spec fn rank(self) -> int {
        match self {
            LogLevel::DEBUG => 0,
            LogLevel::INFO => 1,
            LogLevel::WARNING => 2,
            LogLevel::ERROR => 3,
        }
    }

    /// The level as a log line names it.
    pub open spec fn name(self) -> Seq<char> {
        match self {
            LogLevel::DEBUG => "DEBUG"@,
            LogLevel::INFO => "INFO"@,
            LogLevel::WARNING => "WARNING"@,
            LogLevel::ERROR => "ERROR"@,
        }
    }

    /// The level that an uppercase word selects: the one it names, and
    /// `INFO` for every other word.
    pub open spec fn of_upper(upper: Seq<char>) -> LogLevel {
        if upper == "DEBUG"@ {
            LogLevel::DEBUG
        } else if upper == "WARNING"@ {
            LogLevel::WARNING
        } else if upper == "ERROR"@ {
            LogLevel::ERROR
        } else {
            LogLevel::INFO
        }
    }

    /// The level that a word selects, whatever its case.
    pub open spec fn parse(word: Seq<char>) -> LogLevel {
        Self::of_upper(uppercase(word))
    }

    /// Words that differ only in case select the same level.
    pub proof fn lemma_parse_ignores_case(first: Seq<char>, second: Seq<char>)
        requires
            uppercase(first) == uppercase(second),
        ensures
            Self::parse(first) == Self::parse(second),
    {
    }

    /// The level as a log line names it.
    pub fn as_str(&self) -> (name: &'static str)
        ensures
            name@ == self.name(),
    {
        match self {
            LogLevel::DEBUG => "DEBUG",
            LogLevel::INFO => "INFO",
            LogLevel::WARNING => "WARNING",
            LogLevel::ERROR => "ERROR",
        }
    }

    /// Reads a word that is already in uppercase.
    pub fn from_upper(upper: &str) -> (level: LogLevel)
        ensures
            level == Self::of_upper(upper@),
    {
        if crate::text::str_eq(upper, "DEBUG") {
            LogLevel::DEBUG
        } else if crate::text::str_eq(upper, "WARNING") {
            LogLevel::WARNING
        } else if crate::text::str_eq(upper, "ERROR") {
            LogLevel::ERROR
        } else {
            LogLevel::INFO
        }
    }

    fn severity(&self) -> (rank: u8)
        ensures
            rank == self.rank(),
    {
        match self {
            LogLevel::DEBUG => 0,
            LogLevel::INFO => 1,
            LogLevel::WARNING => 2,
            LogLevel::ERROR => 3,
        }
    }
}

impl From<String> for LogLevel {
    /// Reads the level that a word selects, whatever its case.
    fn from(string: String) -> (level: LogLevel) {
        let upper = string.to_uppercase();
        LogLevel::from_upper(upper.as_str())
    }
}

impl FromSpecImpl<String> for LogLevel {
    open spec fn obeys_from_spec() -> bool {
        true
    }

    open spec fn from_spec(string: String) -> LogLevel {
        LogLevel::parse(string@)
    }
}

/// What ends a log line after `message`: a line feed, unless the message
/// brings its own.
pub open spec fn line_end(message: Seq<char>) -> Seq<char> {
    if message.len() > 0 && message.last() == '\n' {
        Seq::empty()
    } else {
        "\n"@
    }
}

/// The log line for a message: the time, the level between bars, the
/// message, and one line feed at the end.
pub open spec fn line_text(time: Seq<char>, level: Seq<char>, message: Seq<char>) -> Seq<char> {
    time + " |"@ + level + "| "@ + message + line_end(message)
}

/// A message together with its level.
#[derive(Debug, PartialEq, Eq)]
pub struct LogEntry {
    pub level: LogLevel,
    pub message: String,
}

/// Writes messages at or above a level.
#[derive(Debug)]
pub struct Logger {
    level: LogLevel,
}

impl View for Logger {
    type V = LogLevel;

    closed spec fn view(&self) -> LogLevel {
        self.level
    }
}

impl Logger {
    /// Whether a logger of level `own` writes messages of level `level`.
    pub open spec fn writes(own: LogLevel, level: LogLevel) -> bool {
        own.rank() <= level.rank()
    }

    /// What a logger of level `own` writes for a message of level `level`
    /// at the clock reading `reading`.
    pub open spec fn written(
        own: LogLevel,
        level: LogLevel,
        reading: ClockReading,
        message: Seq<char>,
    ) -> Option<Seq<char>> {
        if Self::writes(own, level) {
            Some(line_text(reading.text(), level.name(), message))
        } else {
            None
        }
    }

    /// Makes a logger from the configured level, if one is configured.
    /// Without one the level is `INFO`.
    pub fn new(configured: Option<String>) -> (logger: Logger)
        ensures
            logger@ == match configured {
                Some(word) => LogLevel::parse(word@),
                None => LogLevel::INFO,
            },
    {
        let level = match configured {
            Some(word) => LogLevel::from(word),
            None => LogLevel::INFO,
        };
        Logger { level }
    }

    /// The least severe level that the logger writes.
    pub fn level(&self) -> (level: LogLevel)
        ensures
            level == self@,
    {
        self.level
    }

    /// Whether messages of `level` are written.
    pub fn enabled(&self, level: LogLevel) -> (yes: bool)
        ensures
            yes == Self::writes(self@, level),
    {
        self.level.severity() <= level.severity()
    }

    /// Builds the log line for a message.
    pub fn print_log(time: &str, level: &str, message: &str) -> (line: String)
        ensures
            line@ == line_text(time@, level@, message@),
    {
        let mut line = String::from_str(time);
        line.append(" |");
        line.append(level);
        line.append("| ");
        line.append(message);
        if !ends_with_char(message, '\n') {
            line.append("\n");
        } else {
            assert(line@ + Seq::<char>::empty() =~= line@);
        }
        line
    }

    /// The line for a message of `level` at the current time, where the
    /// logger writes that level.
    fn line_now(&self, level: LogLevel, message: &str) -> (line: Option<String>)
        ensures
            exists|reading: ClockReading|
                reading.wf() && line.deep_view() == #[trigger] Self::written(
                    self@,
                    level,
                    reading,
                    message@,
                ),
    {
        let time = now_as_string();
        let ghost reading = choose|reading: ClockReading|
            reading.wf() && time@ == #[trigger] reading.text();
        if self.enabled(level) {
            let line = Self::print_log(time.as_str(), level.as_str(), message);
            assert(Some(line).deep_view() == Self::written(self@, level, reading, message@));
            Some(line)
        } else {
            assert(None::<String>.deep_view() == Self::written(self@, level, reading, message@));
            None
        }
    }

    /// The line that reports `message` on standard output, where the level
    /// is `INFO` or below.
    pub fn info(&self, message: &str) -> (line: Option<String>)
        ensures
            line is Some <==> Self::writes(self@, LogLevel::INFO),
            exists|reading: ClockReading|
                reading.wf() && line.deep_view() == #[trigger] Self::written(
                    self@,
                    LogLevel::INFO,
                    reading,
                    message@,
                ),
    {
        self.line_now(LogLevel::INFO, message)
    }

    /// The line that reports `message` on standard output, where the level
    /// is `DEBUG`.
    pub fn debug(&self, message: &str) -> (line: Option<String>)
        ensures
            line is Some <==> Self::writes(self@, LogLevel::DEBUG),
            exists|reading: ClockReading|
                reading.wf() && line.deep_view() == #[trigger] Self::written(
                    self@,
                    LogLevel::DEBUG,
                    reading,
                    message@,
                ),
    {
        self.line_now(LogLevel::DEBUG, message)
    }

    /// The line that reports `message` on standard output, where the level
    /// is `WARNING` or below.
    pub fn warning(&self, message: &str) -> (line: Option<String>)
        ensures
            line is Some <==> Self::writes(self@, LogLevel::WARNING),
            exists|reading: ClockReading|
                reading.wf() && line.deep_view() == #[trigger] Self::written(
                    self@,
                    LogLevel::WARNING,
                    reading,
                    message@,
                ),
    {
        self.line_now(LogLevel::WARNING, message)
    }

    /// The line that reports `message` on standard error. Every logger
    /// writes errors.
    pub fn error(&self, message: &str) -> (line: Option<String>)
        ensures
            line is Some,
            exists|reading: ClockReading|
                reading.wf() && line.deep_view() == #[trigger] Self::written(
                    self@,
                    LogLevel::ERROR,
                    reading,
                    message@,
                ),
    {
        self.line_now(LogLevel::ERROR, message)
    }

    /// The line that reports an entry, where the logger writes its level.
    pub fn log(&self, entry: &LogEntry) -> (line: Option<String>)
        ensures
            line is Some <==> Self::writes(self@, entry.level),
            exists|reading: ClockReading|
                reading.wf() && line.deep_view() == #[trigger] Self::written(
                    self@,
                    entry.level,
                    reading,
                    entry.message@,
                ),
    {
        self.line_now(entry.level, entry.message.as_str())
    }
}

} // verus!
