//! The error type of the runtime.
use vstd::prelude::*;

verus! {

/// The kinds of input and output failure that the runtime tells apart.
#[derive(Debug, Clone, Copy, PartialEq, Eq, Structural)]
pub enum IoErrorKind {
    /// The data received do not form a valid frame.
    InvalidData,
    /// A parameter of the call names nothing known.
    InvalidInput,
    /// The data ended before the frame was complete.
    UnexpectedEof,
    /// Any other failure of the transport.
    Other,
}

/// An error of the runtime.
#[non_exhaustive]
#[derive(Debug)]
pub enum Error {
    /// A queue inside the process failed.
    Channel(&'static str),
    /// A connection between processes failed, or what it carried was malformed.
    Io((IoErrorKind, &'static str)),
}

impl Error {
    /// Whether this is an input/output error of the given kind with the
    /// given description.
    pub open spec fn is_io(self, kind: IoErrorKind, description: Seq<char>) -> bool {
        match self {
            Error::Io((k, d)) => k == kind && d@ == description,
            _ => false,
        }
    }

    /// The fixed description that the error was made with.
    pub fn description(&self) -> (d: &'static str)
        ensures
            match *self {
                Error::Channel(c) => d@ == c@,
                Error::Io((_, c)) => d@ == c@,
            },
    {
        match self {
            Error::Channel(c) => c,
            Error::Io((_, c)) => c,
        }
    }

    /// The kind of an input/output error; `None` for a channel error.
    pub fn io_kind(&self) -> (k: Option<IoErrorKind>)
        ensures
            match *self {
                Error::Channel(_) => k.is_none(),
                Error::Io((kind, _)) => k == Some(kind),
            },
    {
        match self {
            Error::Channel(_) => None,
            Error::Io((kind, _)) => Some(*kind),
        }
    }
}

} // verus!
