//! Log entries that a hand keeps, and their levels.

use vstd::prelude::*;
use crate::output::{GbOutputKind, GbOutputT, GbSingleOutput};
use crate::reference::Timestamp;
use crate::text::str_eq;

verus! {

/// How important a log entry is.
#[derive(Clone, Copy, Debug, PartialEq, Eq, Structural)]
pub enum LogLevel {
    Info,
    Error,
    Warning,
    Command,
}

/// The level stored as `s`, if any.
pub open spec fn log_level_of_text(s: Seq<char>) -> Option<LogLevel> {
    if s == "INFO"@ {
        Some(LogLevel::Info)
    } else if s == "ERROR"@ {
        Some(LogLevel::Error)
    } else if s == "WARNING"@ {
        Some(LogLevel::Warning)
    } else if s == "COMMAND"@ {
        Some(LogLevel::Command)
    } else {
        None
    }
}

impl LogLevel {
    /// The kind of message a log entry of this level is shown as: info and
    /// command entries as info, errors as errors, warnings as warnings.
    pub open spec fn output_kind(self) -> GbOutputKind {
        match self {
            LogLevel::Info => GbOutputKind::Info,
            LogLevel::Command => GbOutputKind::Info,
            LogLevel::Error => GbOutputKind::Error,
            LogLevel::Warning => GbOutputKind::Warning,
        }
    }

    pub fn to_output(self) -> (r: GbOutputKind)
        ensures
            r == self.output_kind(),
    {
        match self {
            LogLevel::Info | LogLevel::Command => GbOutputKind::Info,
            LogLevel::Error => GbOutputKind::Error,
            LogLevel::Warning => GbOutputKind::Warning,
        }
    }

    /// How the level is stored in the database: its name in upper case.
    pub open spec fn text_spec(self) -> Seq<char> {
        match self {
            LogLevel::Info => "INFO"@,
            LogLevel::Error => "ERROR"@,
            LogLevel::Warning => "WARNING"@,
            LogLevel::Command => "COMMAND"@,
        }
    }

    pub fn as_text(&self) -> (r: &'static str)
        ensures
            r@ == self.text_spec(),
    {
        match self {
            LogLevel::Info => "INFO",
            LogLevel::Error => "ERROR",
            LogLevel::Warning => "WARNING",
            LogLevel::Command => "COMMAND",
        }
    }

    /// The level stored as `s`, if any.
    pub fn from_text(s: &str) -> (r: Option<LogLevel>)
        ensures
            r == log_level_of_text(s@),
    {
        if str_eq(s, "INFO") {
            Some(LogLevel::Info)
        } else if str_eq(s, "ERROR") {
            Some(LogLevel::Error)
        } else if str_eq(s, "WARNING") {
            Some(LogLevel::Warning)
        } else if str_eq(s, "COMMAND") {
            Some(LogLevel::Command)
        } else {
            None
        }
    }
}

/// Law: reading back the stored text of a level gives that level.
pub proof fn lemma_log_level_text_roundtrip(l: LogLevel)
    ensures
        log_level_of_text(l.text_spec()) == Some(l),
{
    reveal_strlit("INFO");
    reveal_strlit("ERROR");
    reveal_strlit("WARNING");
    reveal_strlit("COMMAND");
    assert("INFO"@ != "ERROR"@ && "INFO"@ != "WARNING"@ && "INFO"@ != "COMMAND"@) by {
        assert("INFO"@[0] != "ERROR"@[0] && "INFO"@[0] != "WARNING"@[0]
            && "INFO"@[0] != "COMMAND"@[0]);
    }
    assert("ERROR"@ != "WARNING"@ && "ERROR"@ != "COMMAND"@) by {
        assert("ERROR"@[0] != "WARNING"@[0] && "ERROR"@[0] != "COMMAND"@[0]);
    }
    assert("WARNING"@ != "COMMAND"@) by {
        assert("WARNING"@[0] != "COMMAND"@[0]);
    }
}

/// A log entry that is about to be added.
#[derive(Debug, Clone)]
pub struct NewLog {
    pub level: LogLevel,
    pub message: String,
}

impl NewLog {
    pub fn new(level: LogLevel, message: &str) -> (r: NewLog)
        ensures
            r.level == level,
            r.message@ == message@,
    {
        NewLog { level, message: message.to_owned() }
    }
}

/// A stored log entry.
#[derive(Debug, Clone)]
pub struct LogEntry {
    id: i64,
    level: LogLevel,
    message: String,
    created: Timestamp,
}

/// The fields of a stored log entry.
pub struct LogEntryView {
    pub id: i64,
    pub level: LogLevel,
    pub message: Seq<char>,
    pub created: Timestamp,
}

impl View for LogEntry {
    type V = LogEntryView;

    closed spec fn view(&self) -> LogEntryView {
        LogEntryView { id: self.id, level: self.level, message: self.message@, created: self.created }
    }
}

impl LogEntry {
    /// The entry as a row of the database holds it.
    pub fn from_parts(id: i64, level: LogLevel, message: String, created: Timestamp) -> (r: LogEntry)
        ensures
            r@ == (LogEntryView { id, level, message: message@, created }),
    {
        LogEntry { id, level, message, created }
    }

    pub fn id(&self) -> (r: i64)
        ensures
            r == self@.id,
    {
        self.id
    }

    pub fn level(&self) -> (r: LogLevel)
        ensures
            r == self@.level,
    {
        self.level
    }

    pub fn message(&self) -> (r: &str)
        ensures
            r@ == self@.message,
    {
        self.message.as_str()
    }

    pub fn created(&self) -> (r: Timestamp)
        ensures
            r == self@.created,
    {
        self.created
    }

    /// What printing the entry shows: its message, as a message of the
    /// kind that its level maps to.
    pub fn to_output(&self) -> (r: GbSingleOutput)
        ensures
            r.kind_spec() == Some(self@.level.output_kind()),
            r.message_spec() == self@.message,
    {
        GbSingleOutput::new(self.level.to_output(), self.message.as_str())
    }
}

} // verus!
