//! The tag byte that opens every frame.
use vstd::prelude::*;
use crate::error::{Error, IoErrorKind};

verus! {

/// The kind of signal that a frame carries. On the wire the ten tags are the
/// numbers 0 to 9, in the order of the variants.
#[derive(Clone, Copy, PartialEq, Eq, Debug, Structural)]
pub enum SignalTag {
    /// Hello on the connection that will carry trigger signals.
    HelloTrigger,
    /// Hello on the connection that will carry ready signals.
    HelloReady,
    /// Startup synchronization.
    StartupSync,
    /// Start of a task chain.
    TaskChainStart,
    /// End of a task chain.
    TaskChainEnd,
    /// Startup of an activity.
    Startup,
    /// One step of an activity.
    Step,
    /// Shutdown of an activity.
    Shutdown,
    /// An activity is ready.
    Ready,
    /// A recorder is ready.
    RecorderReady,
}

impl SignalTag {
    /// The number that stands for the tag on the wire.
    pub open spec fn spec_to_u8(&self) -> u8 {
        match *self {
            SignalTag::HelloTrigger => 0,
            SignalTag::HelloReady => 1,
            SignalTag::StartupSync => 2,
            SignalTag::TaskChainStart => 3,
            SignalTag::TaskChainEnd => 4,
            SignalTag::Startup => 5,
            SignalTag::Step => 6,
            SignalTag::Shutdown => 7,
            SignalTag::Ready => 8,
            SignalTag::RecorderReady => 9,
        }
    }

    /// The tag that a number stands for, if it stands for one.
    pub open spec fn spec_from_u8(v: u8) -> Option<SignalTag> {
        if v == 0 {
            Some(SignalTag::HelloTrigger)
        } else if v == 1 {
            Some(SignalTag::HelloReady)
        } else if v == 2 {
            Some(SignalTag::StartupSync)
        } else if v == 3 {
            Some(SignalTag::TaskChainStart)
        } else if v == 4 {
            Some(SignalTag::TaskChainEnd)
        } else if v == 5 {
            Some(SignalTag::Startup)
        } else if v == 6 {
            Some(SignalTag::Step)
        } else if v == 7 {
            Some(SignalTag::Shutdown)
        } else if v == 8 {
            Some(SignalTag::Ready)
        } else if v == 9 {
            Some(SignalTag::RecorderReady)
        } else {
            None
        }
    }

    /// The number of payload bytes that a frame with this tag carries.
    pub open spec fn spec_payload_len(&self) -> usize {
        match *self {
            SignalTag::HelloTrigger => 8,
            SignalTag::HelloReady => 8,
            SignalTag::StartupSync => 8,
            SignalTag::TaskChainStart => 8,
            SignalTag::TaskChainEnd => 8,
            SignalTag::Startup => 16,
            SignalTag::Step => 16,
            SignalTag::Shutdown => 16,
            SignalTag::Ready => 16,
            SignalTag::RecorderReady => 16,
        }
    }

    /// Whether the payload of a frame with this tag starts with an identifier.
    pub open spec fn carries_id(&self) -> bool {
        !(*self is StartupSync || *self is TaskChainStart || *self is TaskChainEnd)
    }

    /// Returns the number that stands for the tag on the wire.
    #[verifier::when_used_as_spec(spec_to_u8)]
    pub fn to_u8(&self) -> (v: u8)
        ensures
            v == self.spec_to_u8(),
            v <= 9,
    {
        match self {
            SignalTag::HelloTrigger => 0,
            SignalTag::HelloReady => 1,
            SignalTag::StartupSync => 2,
            SignalTag::TaskChainStart => 3,
            SignalTag::TaskChainEnd => 4,
            SignalTag::Startup => 5,
            SignalTag::Step => 6,
            SignalTag::Shutdown => 7,
            SignalTag::Ready => 8,
            SignalTag::RecorderReady => 9,
        }
    }

    /// Returns the number of payload bytes that a frame with this tag carries:
    /// eight for each identifier and eight for each time value.
    #[verifier::when_used_as_spec(spec_payload_len)]
    pub fn payload_len(&self) -> (n: usize)
        ensures
            n == self.spec_payload_len(),
            n == 8 || n == 16,
    {
        match self {
            SignalTag::HelloTrigger => 8,
            SignalTag::HelloReady => 8,
            SignalTag::StartupSync => 8,
            SignalTag::TaskChainStart => 8,
            SignalTag::TaskChainEnd => 8,
            _ => 16,
        }
    }

    /// Reads a tag from its number. The numbers 0 to 9 are tags; every other
    /// number is rejected as invalid data.
    pub fn try_from(v: u8) -> (r: Result<SignalTag, Error>)
        ensures
            match Self::spec_from_u8(v) {
                Some(tag) => r == Ok::<SignalTag, Error>(tag),
                None => r is Err && r->Err_0.is_io(
                    IoErrorKind::InvalidData,
                    "invalid SignalPdu tag"@,
                ),
            },
    {
        match v {
            0 => Ok(SignalTag::HelloTrigger),
            1 => Ok(SignalTag::HelloReady),
            2 => Ok(SignalTag::StartupSync),
            3 => Ok(SignalTag::TaskChainStart),
            4 => Ok(SignalTag::TaskChainEnd),
            5 => Ok(SignalTag::Startup),
            6 => Ok(SignalTag::Step),
            7 => Ok(SignalTag::Shutdown),
            8 => Ok(SignalTag::Ready),
            9 => Ok(SignalTag::RecorderReady),
            _ => Err(Error::Io((IoErrorKind::InvalidData, "invalid SignalPdu tag"))),
        }
    }
}

impl Default for SignalTag {
    fn default() -> (tag: Self)
        ensures
            tag == SignalTag::HelloTrigger,
    {
        SignalTag::HelloTrigger
    }
}

/// A tag is read back from its own number, and from no other.
pub proof fn lemma_tag_number_roundtrip(tag: SignalTag, v: u8)
    ensures
        SignalTag::spec_from_u8(tag.spec_to_u8()) == Some(tag),
        SignalTag::spec_from_u8(v) == Some(tag) ==> tag.spec_to_u8() == v,
        SignalTag::spec_from_u8(v) is Some <==> v <= 9,
{
}

} // verus!
