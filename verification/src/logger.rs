//! What gets logged, and how a logged line reads.

use vstd::prelude::*;
use vstd::string::StringExecFns;
use crate::text::join;

verus! {

/// How grave a message is; a graver level has a lower rank.
#[derive(Debug, Clone, Copy, PartialEq, Eq)]
pub enum Level {
    Error,
    Warn,
    Info,
    Debug,
    Trace,
}

/// The value of the outcome of choosing a level.
pub open spec fn choice_view(outcome: Result<Level, String>) -> Result<Level, Seq<char>> {
    match outcome {
        Ok(level) => Ok(level),
        Err(message) => Err(message@),
    }
}

impl Level {
    /// The rank of the level, from 1 for errors to 5 for traces.
    pub open spec fn rank(self) -> nat {
        match self {
            Level::Error => 1,
            Level::Warn => 2,
            Level::Info => 3,
            Level::Debug => 4,
            Level::Trace => 5,
        }
    }

    /// The word that a line of this level begins with.
    pub open spec fn label(self) -> Seq<char> {
        match self {
            Level::Error => "error"@,
            Level::Warn => "warning"@,
            Level::Info => "note"@,
            Level::Debug => "debug"@,
            Level::Trace => "trace"@,
        }
    }

    /// The level up to which messages are logged when the user has asked
    /// for more output `count` times. More than three times is too many.
    pub open spec fn for_verbosity(count: u8) -> Result<Level, Seq<char>> {
        if count == 0 {
            Ok(Level::Error)
        } else if count == 1 {
            Ok(Level::Info)
        } else if count == 2 {
            Ok(Level::Debug)
        } else if count == 3 {
            Ok(Level::Trace)
        } else {
            Err("too many occurrences of --verbose/-v"@)
        }
    }

    /// Computes the rank of the level.
    pub fn severity(self) -> (r: u8)
        ensures
            r == self.rank(),
    {
        match self {
            Level::Error => 1,
            Level::Warn => 2,
            Level::Info => 3,
            Level::Debug => 4,
            Level::Trace => 5,
        }
    }

    /// The word that a line of this level begins with.
    pub fn as_label(self) -> (r: &'static str)
        ensures
            r@ == self.label(),
    {
        match self {
            Level::Error => "error",
            Level::Warn => "warning",
            Level::Info => "note",
            Level::Debug => "debug",
            Level::Trace => "trace",
        }
    }

    /// Chooses the level up to which messages are logged from the number
    /// of times the user has asked for more output.
    pub fn from_verbosity(count: u8) -> (outcome: Result<Level, String>)
        ensures
            choice_view(outcome) == Level::for_verbosity(count),
    {
        if count == 0 {
            Ok(Level::Error)
        } else if count == 1 {
            Ok(Level::Info)
        } else if count == 2 {
            Ok(Level::Debug)
        } else if count == 3 {
            Ok(Level::Trace)
        } else {
            Err("too many occurrences of --verbose/-v".to_owned())
        }
    }
}

/// A logger that lets through the messages up to one level.
#[derive(Debug)]
pub struct Logger {
    max_level: Level,
}

impl View for Logger {
    type V = Level;

    closed spec fn view(&self) -> Level {
        self.max_level
    }
}

/// The line that is written for a message of `level`.
pub open spec fn log_line(level: Level, text: Seq<char>) -> Seq<char> {
    level.label() + ": "@ + text
}

impl Logger {
    /// A logger that lets through the messages up to `max_level`.
    pub fn new(max_level: Level) -> (r: Logger)
        ensures
            r@ == max_level,
    {
        Logger { max_level }
    }

    /// Whether a message of `level` is let through.
    pub fn enabled(&self, level: Level) -> (r: bool)
        ensures
            r == (level.rank() <= self@.rank()),
    {
        level.severity() <= self.max_level.severity()
    }

    /// The line to write for a message of `level`, or `None` where the
    /// message is not let through.
    pub fn render(&self, level: Level, text: &str) -> (r: Option<String>)
        ensures
            match r {
                Some(line) => level.rank() <= self@.rank() && line@ == log_line(level, text@),
                None => level.rank() > self@.rank(),
            },
    {
        if self.enabled(level) {
            let mut line = join(level.as_label(), ": ");
            line.append(text);
            Some(line)
        } else {
            None
        }
    }
}

} // verus!
