//! The level filter: which records are let through.
use vstd::prelude::*;
use vstd::string::StringSliceAdditionalSpecFns;
use crate::logger::level::Level;

verus! {

/// The gravest level that is still let through; `Off` lets nothing through.
#[derive(Debug, Clone, Copy, PartialEq, Eq, Structural)]
pub enum LevelFilter {
    /// Nothing is let through.
    Off,
    /// Errors only.
    Error,
    /// Warnings and what is graver.
    Warn,
    /// Information and what is graver.
    Info,
    /// Debug output and what is graver.
    Debug,
    /// Everything.
    Trace,
}

/// A byte with an ASCII capital letter made small.
pub open spec fn spec_ascii_lower(b: u8) -> u8 {
    if 65 <= b <= 90 {
        (b + 32) as u8
    } else {
        b
    }
}

/// Whether two texts are the same but for the case of their ASCII letters.
pub open spec fn spec_eq_ignore_ascii_case(a: Seq<u8>, b: Seq<u8>) -> bool {
    a.len() == b.len() && forall|i: int|
        0 <= i < a.len() ==> spec_ascii_lower(a[i]) == spec_ascii_lower(b[i])
}

/// The filter that a text names: `OFF`, `ERROR`, `WARN`, `INFO`, `DEBUG` or
/// `TRACE`, in capital or small letters; nothing for any other text.
pub open spec fn spec_parse_level_filter(s: Seq<u8>) -> Option<LevelFilter> {
    if spec_eq_ignore_ascii_case(s, seq![79u8, 70u8, 70u8]) {
        Some(LevelFilter::Off)
    } else if spec_eq_ignore_ascii_case(s, seq![69u8, 82u8, 82u8, 79u8, 82u8]) {
        Some(LevelFilter::Error)
    } else if spec_eq_ignore_ascii_case(s, seq![87u8, 65u8, 82u8, 78u8]) {
        Some(LevelFilter::Warn)
    } else if spec_eq_ignore_ascii_case(s, seq![73u8, 78u8, 70u8, 79u8]) {
        Some(LevelFilter::Info)
    } else if spec_eq_ignore_ascii_case(s, seq![68u8, 69u8, 66u8, 85u8, 71u8]) {
        Some(LevelFilter::Debug)
    } else if spec_eq_ignore_ascii_case(s, seq![84u8, 82u8, 65u8, 67u8, 69u8]) {
        Some(LevelFilter::Trace)
    } else {
        None
    }
}

/// Calls `log::LevelFilter::from_str`. Trusted: the text is compared with
/// the six names `OFF`, `ERROR`, `WARN`, `INFO`, `DEBUG`, `TRACE` in this
/// order, byte by byte and without regard to the case of ASCII letters; the
/// first name that matches gives the filter, and a text that matches none
/// is an error, which is given as `None`.
#[verifier::external_body]
fn parse_level_filter(s: &str) -> (r: Option<LevelFilter>)
    ensures
        r == spec_parse_level_filter(s.spec_bytes()),
{
    let parsed: Result<log::LevelFilter, log::ParseLevelError> = std::str::FromStr::from_str(s);
    match parsed {
        Ok(log::LevelFilter::Off) => Some(LevelFilter::Off),
        Ok(log::LevelFilter::Error) => Some(LevelFilter::Error),
        Ok(log::LevelFilter::Warn) => Some(LevelFilter::Warn),
        Ok(log::LevelFilter::Info) => Some(LevelFilter::Info),
        Ok(log::LevelFilter::Debug) => Some(LevelFilter::Debug),
        Ok(log::LevelFilter::Trace) => Some(LevelFilter::Trace),
        Err(_) => None,
    }
}

impl LevelFilter {
    /// The place of the filter among the six, `Off` being zero.
    pub open spec fn spec_to_u8(&self) -> u8 {
        match *self {
            LevelFilter::Off => 0,
            LevelFilter::Error => 1,
            LevelFilter::Warn => 2,
            LevelFilter::Info => 3,
            LevelFilter::Debug => 4,
            LevelFilter::Trace => 5,
        }
    }

    /// Returns the place of the filter among the six, `Off` being zero.
    #[verifier::when_used_as_spec(spec_to_u8)]
    pub fn to_u8(&self) -> (v: u8)
        ensures
            v == self.spec_to_u8(),
    {
        match self {
            LevelFilter::Off => 0,
            LevelFilter::Error => 1,
            LevelFilter::Warn => 2,
            LevelFilter::Info => 3,
            LevelFilter::Debug => 4,
            LevelFilter::Trace => 5,
        }
    }

    /// Returns the filter at the given place among the six, `Off` being
    /// zero; nothing for a number above five.
    pub fn from_u8(v: u8) -> (r: Option<LevelFilter>)
        ensures
            v <= 5 ==> r is Some && r->Some_0.spec_to_u8() == v,
            v > 5 ==> r is None,
    {
        match v {
            0 => Some(LevelFilter::Off),
            1 => Some(LevelFilter::Error),
            2 => Some(LevelFilter::Warn),
            3 => Some(LevelFilter::Info),
            4 => Some(LevelFilter::Debug),
            5 => Some(LevelFilter::Trace),
            _ => None,
        }
    }

    /// Returns whether a record of the given level is let through: its level
    /// is no less grave than the filter asks.
    pub fn enabled(&self, level: Level) -> (b: bool)
        ensures
            b == (level.spec_to_u8() <= self.spec_to_u8()),
    {
        level.to_u8() <= self.to_u8()
    }
}

/// Chooses the level filter: the one that the environment names, if it names
/// one, and the given one otherwise. `from_env` is the value of the variable
/// `RUST_LOG`, if it is set.
pub fn level_from_env(from_env: Option<&str>, level: LevelFilter) -> (r: LevelFilter)
    ensures
        r == match from_env {
            Some(s) => match spec_parse_level_filter(s.spec_bytes()) {
                Some(named) => named,
                None => level,
            },
            None => level,
        },
{
    match from_env {
        Some(s) => match parse_level_filter(s) {
            Some(named) => named,
            None => level,
        },
        None => level,
    }
}

} // verus!
