//! The protocol data unit: a tag, a declared length and up to sixteen bytes of
//! payload.
//!
//! On a stream a PDU travels as a frame: one tag byte, the payload length as a
//! big-endian integer of two bytes, then the payload. Identifiers and time
//! values stand in the payload as big-endian integers of eight bytes each, the
//! identifier first.
use vstd::prelude::*;
use crate::be::{spec_u16_from_be, spec_u16_to_be, spec_u64_from_be, spec_u64_to_be};
use crate::ids::{ActivityId, AgentId};
use crate::signalling::tag::SignalTag;
use crate::signals::Signal;
use crate::timestamp::{SyncInfo, Timestamp};

verus! {

/// The largest payload that a PDU holds, in bytes.
pub const MAX_PDU_DATA_SIZE: usize = 16;

/// The size of a frame's header, in bytes: the tag and the payload length.
pub const PDU_HEADER_SIZE: usize = 3;

/// A signal in its wire form.
#[derive(Debug, Clone, Copy)]
pub struct SignalPdu {
    /// What kind of signal the payload holds.
    pub tag: SignalTag,
    /// How many bytes of `data` are payload.
    pub data_len: u16,
    /// The payload, in the first `data_len` bytes.
    pub data: [u8; 16],
}

/// The tag under which a signal travels.
pub open spec fn spec_tag(s: Signal) -> SignalTag {
    match s {
        Signal::HelloTrigger(_) => SignalTag::HelloTrigger,
        Signal::HelloReady(_) => SignalTag::HelloReady,
        Signal::StartupSync(_) => SignalTag::StartupSync,
        Signal::TaskChainStart(_) => SignalTag::TaskChainStart,
        Signal::TaskChainEnd(_) => SignalTag::TaskChainEnd,
        Signal::Startup(_) => SignalTag::Startup,
        Signal::Step(_) => SignalTag::Step,
        Signal::Shutdown(_) => SignalTag::Shutdown,
        Signal::Ready(_) => SignalTag::Ready,
        Signal::RecorderReady(_) => SignalTag::RecorderReady,
    }
}

/// The payload bytes of a signal.
pub open spec fn spec_payload(s: Signal) -> Seq<u8> {
    match s {
        Signal::HelloTrigger(id) => spec_u64_to_be(id.0 as u64),
        Signal::HelloReady(id) => spec_u64_to_be(id.0 as u64),
        Signal::StartupSync(info) => spec_u64_to_be(info.since_epoch),
        Signal::TaskChainStart(t) => spec_u64_to_be(t.0),
        Signal::TaskChainEnd(t) => spec_u64_to_be(t.0),
        Signal::Startup((id, t)) => spec_u64_to_be(id.0 as u64) + spec_u64_to_be(t.0),
        Signal::Step((id, t)) => spec_u64_to_be(id.0 as u64) + spec_u64_to_be(t.0),
        Signal::Shutdown((id, t)) => spec_u64_to_be(id.0 as u64) + spec_u64_to_be(t.0),
        Signal::Ready((id, t)) => spec_u64_to_be(id.0 as u64) + spec_u64_to_be(t.0),
        Signal::RecorderReady((id, t)) => spec_u64_to_be(id.0 as u64) + spec_u64_to_be(t.0),
    }
}

/// The first eight payload bytes, read as an integer.
pub open spec fn spec_first_word(payload: Seq<u8>) -> u64 {
    spec_u64_from_be(payload.subrange(0, 8))
}

/// The second eight payload bytes, read as an integer.
pub open spec fn spec_second_word(payload: Seq<u8>) -> u64 {
    spec_u64_from_be(payload.subrange(8, 16))
}

/// Whether the identifier in a payload, if the tag asks for one, is a value
/// that this machine's identifiers can hold.
pub open spec fn spec_id_fits(tag: SignalTag, payload: Seq<u8>) -> bool {
    tag.carries_id() ==> spec_first_word(payload) <= usize::MAX
}

/// The signal that a tag and a payload of sufficient length stand for.
pub open spec fn spec_signal(tag: SignalTag, payload: Seq<u8>) -> Signal {
    let a = spec_first_word(payload);
    let b = spec_second_word(payload);
    match tag {
        SignalTag::HelloTrigger => Signal::HelloTrigger(AgentId(a as usize)),
        SignalTag::HelloReady => Signal::HelloReady(AgentId(a as usize)),
        SignalTag::StartupSync => Signal::StartupSync(SyncInfo { since_epoch: a }),
        SignalTag::TaskChainStart => Signal::TaskChainStart(Timestamp(a)),
        SignalTag::TaskChainEnd => Signal::TaskChainEnd(Timestamp(a)),
        SignalTag::Startup => Signal::Startup((ActivityId(a as usize), Timestamp(b))),
        SignalTag::Step => Signal::Step((ActivityId(a as usize), Timestamp(b))),
        SignalTag::Shutdown => Signal::Shutdown((ActivityId(a as usize), Timestamp(b))),
        SignalTag::Ready => Signal::Ready((ActivityId(a as usize), Timestamp(b))),
        SignalTag::RecorderReady => Signal::RecorderReady((AgentId(a as usize), Timestamp(b))),
    }
}

/// The frame of a tag and a payload: tag byte, length, payload.
pub open spec fn spec_frame(tag: SignalTag, payload: Seq<u8>) -> Seq<u8> {
    seq![tag.spec_to_u8()] + spec_u16_to_be(payload.len() as u16) + payload
}

/// The payload length that the header of a frame declares.
pub open spec fn spec_declared_len(frame: Seq<u8>) -> u16 {
    spec_u16_from_be(frame.subrange(1, 3))
}

impl SignalPdu {
    /// The payload: the first `data_len` bytes of the data.
    pub open spec fn payload(&self) -> Seq<u8> {
        self.data@.take(self.data_len as int)
    }

    /// Whether the declared length is within the payload limit.
    pub open spec fn wf(&self) -> bool {
        self.data_len <= MAX_PDU_DATA_SIZE
    }

    /// Whether the payload is long enough for what the tag announces.
    pub open spec fn spec_is_complete(&self) -> bool {
        self.data_len >= self.tag.spec_payload_len()
    }

    /// Whether every byte behind the payload is zero.
    pub open spec fn padded(&self) -> bool {
        forall|i: int| self.data_len <= i < 16 ==> self.data@[i] == 0
    }

    /// Returns whether the payload is long enough for what the tag announces.
    #[verifier::when_used_as_spec(spec_is_complete)]
    pub fn is_complete(&self) -> (b: bool)
        ensures
            b == self.spec_is_complete(),
    {
        self.data_len as usize >= self.tag.payload_len()
    }
}

impl Default for SignalPdu {
    /// The empty PDU: the first tag, no payload, all data zero.
    fn default() -> (pdu: Self)
        ensures
            pdu.tag == SignalTag::HelloTrigger,
            pdu.data_len == 0,
            pdu.padded(),
    {
        SignalPdu { tag: SignalTag::HelloTrigger, data_len: 0, data: [0u8; 16] }
    }
}

/// Sets the header of a PDU: its tag and the length of its payload. The data
/// are left as they are.
pub fn encode_header(pdu: &mut SignalPdu, tag: SignalTag, data_len: usize)
    requires
        data_len <= MAX_PDU_DATA_SIZE,
    ensures
        final(pdu).tag == tag,
        final(pdu).data_len == data_len,
        final(pdu).data == old(pdu).data,
{
    pdu.tag = tag;
    pdu.data_len = data_len as u16;
}

} // verus!
