//! The levels of log records.
use vstd::prelude::*;

verus! {

/// How grave a log record is.
#[derive(Debug, Clone, Copy, PartialEq, Eq, Structural)]
pub enum Level {
    /// Very serious errors.
    Error,
    /// Hazardous situations.
    Warn,
    /// Useful information.
    Info,
    /// Lower priority information.
    Debug,
    /// Very low priority, often very verbose, information.
    Trace,
}

/// The colours in which the pieces of a log line are shown.
#[derive(Debug, Clone, Copy, PartialEq, Eq, Structural)]
pub enum Color {
    /// Red.
    Red,
    /// Yellow.
    Yellow,
    /// Green.
    Green,
    /// White.
    White,
    /// One of the 256 colours of a terminal.
    Color256(u8),
}

impl Level {
    /// The number that stands for the level in an encoded record.
    pub open spec fn spec_to_u8(&self) -> u8 {
        match *self {
            Level::Error => 1,
            Level::Warn => 2,
            Level::Info => 3,
            Level::Debug => 4,
            Level::Trace => 5,
        }
    }

    /// The level that a number stands for, if it stands for one.
    pub open spec fn spec_from_u8(v: u8) -> Option<Level> {
        if v == 1 {
            Some(Level::Error)
        } else if v == 2 {
            Some(Level::Warn)
        } else if v == 3 {
            Some(Level::Info)
        } else if v == 4 {
            Some(Level::Debug)
        } else if v == 5 {
            Some(Level::Trace)
        } else {
            None
        }
    }

    /// The name under which the level is shown.
    pub open spec fn spec_name(&self) -> Seq<char> {
        match *self {
            Level::Error => "ERROR"@,
            Level::Warn => "WARN"@,
            Level::Info => "INFO"@,
            Level::Debug => "DEBUG"@,
            Level::Trace => "TRACE"@,
        }
    }

    /// The colour in which the level is shown.
    pub open spec fn spec_color(&self) -> Color {
        match *self {
            Level::Error => Color::Red,
            Level::Warn => Color::Yellow,
            Level::Info => Color::Green,
            Level::Debug => Color::Color256(243),
            Level::Trace => Color::White,
        }
    }

    /// Returns the number that stands for the level in an encoded record.
    #[verifier::when_used_as_spec(spec_to_u8)]
    pub fn to_u8(&self) -> (v: u8)
        ensures
            v == self.spec_to_u8(),
    {
        match self {
            Level::Error => 1,
            Level::Warn => 2,
            Level::Info => 3,
            Level::Debug => 4,
            Level::Trace => 5,
        }
    }

    /// Reads a level from its number: 1 to 5 are levels, nothing else is.
    pub fn from_u8(v: u8) -> (r: Option<Level>)
        ensures
            r == Self::spec_from_u8(v),
    {
        match v {
            1 => Some(Level::Error),
            2 => Some(Level::Warn),
            3 => Some(Level::Info),
            4 => Some(Level::Debug),
            5 => Some(Level::Trace),
            _ => None,
        }
    }

    /// Returns the name under which the level is shown.
    pub fn name(&self) -> (s: &'static str)
        ensures
            s@ == self.spec_name(),
    {
        match self {
            Level::Error => "ERROR",
            Level::Warn => "WARN",
            Level::Info => "INFO",
            Level::Debug => "DEBUG",
            Level::Trace => "TRACE",
        }
    }

    /// Returns the colour in which the level is shown.
    pub fn color(&self) -> (c: Color)
        ensures
            c == self.spec_color(),
    {
        match self {
            Level::Error => Color::Red,
            Level::Warn => Color::Yellow,
            Level::Info => Color::Green,
            Level::Debug => Color::Color256(243),
            Level::Trace => Color::White,
        }
    }
}

/// A level is read back from its own number.
pub proof fn lemma_level_number_roundtrip(level: Level)
    ensures
        Level::spec_from_u8(level.spec_to_u8()) == Some(level),
{
}

} // verus!
