//! Decoding frames into PDUs and PDUs into signals.
use vstd::prelude::*;
use crate::be::{u16_from_be, u64_from_be};
use crate::error::{Error, IoErrorKind};
use crate::ids::{ActivityId, AgentId};
use crate::signalling::pdu::{
    spec_declared_len, spec_id_fits, spec_signal, SignalPdu, MAX_PDU_DATA_SIZE, PDU_HEADER_SIZE,
};
use crate::signalling::tag::SignalTag;
use crate::signals::Signal;
use crate::timestamp::{SyncInfo, Timestamp};

verus! {

/// What reading a frame from a buffer comes to.
pub enum FrameCheck {
    /// The buffer ends inside the header.
    ShortHeader,
    /// The header declares more payload than a PDU holds.
    TooLong,
    /// The buffer ends inside the payload.
    ShortData,
    /// The tag byte is no tag.
    BadTag,
    /// The buffer starts with a whole frame.
    Whole,
}

/// Classifies a buffer in the order in which a reader meets the faults: the
/// header, the declared length, the payload, and last the tag.
pub open spec fn spec_check_frame(frame: Seq<u8>) -> FrameCheck {
    if frame.len() < PDU_HEADER_SIZE {
        FrameCheck::ShortHeader
    } else if spec_declared_len(frame) > MAX_PDU_DATA_SIZE {
        FrameCheck::TooLong
    } else if frame.len() < PDU_HEADER_SIZE + spec_declared_len(frame) {
        FrameCheck::ShortData
    } else if SignalTag::spec_from_u8(frame[0]) is None {
        FrameCheck::BadTag
    } else {
        FrameCheck::Whole
    }
}

/// Reads the identifier at the start of the data, or fails where the value is
/// beyond what an identifier of this machine holds.
fn read_id(data: &[u8; 16]) -> (r: Result<usize, Error>)
    ensures
        spec_u64_from_be_first(data@) <= usize::MAX ==> r == Ok::<usize, Error>(
            spec_u64_from_be_first(data@) as usize,
        ),
        spec_u64_from_be_first(data@) > usize::MAX ==> r is Err && r->Err_0.is_io(
            IoErrorKind::InvalidData,
            "failed to decode pdu"@,
        ),
{
    let a = u64_from_be(data.as_slice(), 0);
    if a > usize::MAX as u64 {
        return Err(Error::Io((IoErrorKind::InvalidData, "failed to decode pdu")));
    }
    Ok(a as usize)
}

/// The first eight bytes of the data, read as an integer.
pub open spec fn spec_u64_from_be_first(data: Seq<u8>) -> u64 {
    crate::be::spec_u64_from_be(data.subrange(0, 8))
}

impl Signal {
    /// Decodes a well-formed PDU whose payload is complete for its tag. The identifier, if
    /// the tag asks for one, is read from the first eight payload bytes and
    /// the time value from the eight bytes that follow it (or from the first
    /// eight, where there is no identifier). An identifier beyond what this
    /// machine's identifiers hold is rejected as invalid data; every other
    /// complete PDU decodes.
    pub fn try_from(pdu: &SignalPdu) -> (r: Result<Signal, Error>)
        requires
            pdu.wf(),
            pdu.is_complete(),
        ensures
            spec_id_fits(pdu.tag, pdu.payload()) ==> r == Ok::<Signal, Error>(
                spec_signal(pdu.tag, pdu.payload()),
            ),
            !spec_id_fits(pdu.tag, pdu.payload()) ==> r is Err && r->Err_0.is_io(
                IoErrorKind::InvalidData,
                "failed to decode pdu"@,
            ),
    {
        proof {
            assert(pdu.payload().subrange(0, 8) =~= pdu.data@.subrange(0, 8));
            if pdu.data_len >= 16 {
                assert(pdu.payload().subrange(8, 16) =~= pdu.data@.subrange(8, 16));
            }
        }
        match pdu.tag {
            SignalTag::StartupSync => {
                let a = u64_from_be(pdu.data.as_slice(), 0);
                Ok(Signal::StartupSync(SyncInfo { since_epoch: a }))
            },
            SignalTag::TaskChainStart => {
                let a = u64_from_be(pdu.data.as_slice(), 0);
                Ok(Signal::TaskChainStart(Timestamp(a)))
            },
            SignalTag::TaskChainEnd => {
                let a = u64_from_be(pdu.data.as_slice(), 0);
                Ok(Signal::TaskChainEnd(Timestamp(a)))
            },
            SignalTag::HelloTrigger => {
                match read_id(&pdu.data) {
                    Ok(id) => Ok(Signal::HelloTrigger(AgentId(id))),
                    Err(e) => Err(e),
                }
            },
            SignalTag::HelloReady => {
                match read_id(&pdu.data) {
                    Ok(id) => Ok(Signal::HelloReady(AgentId(id))),
                    Err(e) => Err(e),
                }
            },
            SignalTag::Startup => {
                let b = u64_from_be(pdu.data.as_slice(), 8);
                match read_id(&pdu.data) {
                    Ok(id) => Ok(Signal::Startup((ActivityId(id), Timestamp(b)))),
                    Err(e) => Err(e),
                }
            },
            SignalTag::Step => {
                let b = u64_from_be(pdu.data.as_slice(), 8);
                match read_id(&pdu.data) {
                    Ok(id) => Ok(Signal::Step((ActivityId(id), Timestamp(b)))),
                    Err(e) => Err(e),
                }
            },
            SignalTag::Shutdown => {
                let b = u64_from_be(pdu.data.as_slice(), 8);
                match read_id(&pdu.data) {
                    Ok(id) => Ok(Signal::Shutdown((ActivityId(id), Timestamp(b)))),
                    Err(e) => Err(e),
                }
            },
            SignalTag::Ready => {
                let b = u64_from_be(pdu.data.as_slice(), 8);
                match read_id(&pdu.data) {
                    Ok(id) => Ok(Signal::Ready((ActivityId(id), Timestamp(b)))),
                    Err(e) => Err(e),
                }
            },
            SignalTag::RecorderReady => {
                let b = u64_from_be(pdu.data.as_slice(), 8);
                match read_id(&pdu.data) {
                    Ok(id) => Ok(Signal::RecorderReady((AgentId(id), Timestamp(b)))),
                    Err(e) => Err(e),
                }
            },
        }
    }
}

impl SignalPdu {
    /// Reads the frame at the start of a buffer. The faults are met in the
    /// order of reading: a buffer that ends inside the header, a declared
    /// length over the payload limit, a buffer that ends inside the payload,
    /// an unknown tag. A whole frame gives the PDU with that tag, length and
    /// payload, and zero behind the payload; bytes behind the frame are not
    /// looked at.
    pub fn from_bytes(frame: &[u8]) -> (r: Result<SignalPdu, Error>)
        ensures
            match spec_check_frame(frame@) {
                FrameCheck::ShortHeader => r is Err && r->Err_0.is_io(
                    IoErrorKind::UnexpectedEof,
                    "failed to read SignalPdu header"@,
                ),
                FrameCheck::TooLong => r is Err && r->Err_0.is_io(
                    IoErrorKind::InvalidData,
                    "received PDU length exceeds buffer size"@,
                ),
                FrameCheck::ShortData => r is Err && r->Err_0.is_io(
                    IoErrorKind::UnexpectedEof,
                    "failed to read SignalPdu data"@,
                ),
                FrameCheck::BadTag => r is Err && r->Err_0.is_io(
                    IoErrorKind::InvalidData,
                    "invalid SignalPdu tag"@,
                ),
                FrameCheck::Whole => {
                    &&& r is Ok
                    &&& Some(r->Ok_0.tag) == SignalTag::spec_from_u8(frame@[0])
                    &&& r->Ok_0.data_len == spec_declared_len(frame@)
                    &&& r->Ok_0.payload() == frame@.subrange(
                        PDU_HEADER_SIZE as int,
                        PDU_HEADER_SIZE + spec_declared_len(frame@),
                    )
                    &&& r->Ok_0.padded()
                },
            },
    {
        if frame.len() < PDU_HEADER_SIZE {
            return Err(Error::Io((IoErrorKind::UnexpectedEof, "failed to read SignalPdu header")));
        }
        let declared = u16_from_be(frame, 1);
        let n: usize = declared as usize;
        if n > MAX_PDU_DATA_SIZE {
            return Err(
                Error::Io((IoErrorKind::InvalidData, "received PDU length exceeds buffer size")),
            );
        }
        if frame.len() < PDU_HEADER_SIZE + n {
            return Err(Error::Io((IoErrorKind::UnexpectedEof, "failed to read SignalPdu data")));
        }
        let mut data = [0u8; 16];
        let mut i: usize = 0;
        while i < n
            invariant
                i <= n <= 16,
                PDU_HEADER_SIZE + n <= frame@.len(),
                forall|k: int| 0 <= k < i ==> data@[k] == frame@[PDU_HEADER_SIZE + k],
                forall|k: int| i <= k < 16 ==> data@[k] == 0,
            decreases n - i,
        {
            data[i] = frame[PDU_HEADER_SIZE + i];
            i += 1;
        }
        let tag = SignalTag::try_from(frame[0])?;
        let pdu = SignalPdu { tag, data_len: declared, data };
        assert(pdu.payload() =~= frame@.subrange(
            PDU_HEADER_SIZE as int,
            PDU_HEADER_SIZE + spec_declared_len(frame@),
        ));
        Ok(pdu)
    }
}

} // verus!
