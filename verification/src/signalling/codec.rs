//! Encoding signals as PDUs and frames, and decoding them again.
use vstd::prelude::*;
use crate::be::{push_u16_be, spec_u64_to_be, u16_from_be};
use crate::error::{Error, IoErrorKind};
use crate::signalling::pdu::{
    encode_header, spec_declared_len, spec_frame, spec_payload, spec_tag, SignalPdu, MAX_PDU_DATA_SIZE, PDU_HEADER_SIZE,
};
use crate::signalling::tag::SignalTag;
use crate::signals::Signal;

verus! {

/// Writes the eight bytes of a big-endian integer into the data at `at`.
fn put_u64_be(data: &mut [u8; 16], at: usize, x: u64)
    requires
        at + 8 <= 16,
    ensures
        final(data)@.subrange(at as int, at + 8) == spec_u64_to_be(x),
        forall|i: int| 0 <= i < 16 && !(at <= i < at + 8) ==> final(data)@[i] == old(data)@[i],
{
    data[at] = (x >> 56) as u8;
    data[at + 1] = ((x >> 48) & 0xff) as u8;
    data[at + 2] = ((x >> 40) & 0xff) as u8;
    data[at + 3] = ((x >> 32) & 0xff) as u8;
    data[at + 4] = ((x >> 24) & 0xff) as u8;
    data[at + 5] = ((x >> 16) & 0xff) as u8;
    data[at + 6] = ((x >> 8) & 0xff) as u8;
    data[at + 7] = (x & 0xff) as u8;
    assert(data@.subrange(at as int, at + 8) =~= spec_u64_to_be(x));
}

/// Builds the PDU of one word.
fn pdu_of_word(tag: SignalTag, a: u64) -> (pdu: SignalPdu)
    ensures
        pdu.tag == tag,
        pdu.data_len == 8,
        pdu.payload() == spec_u64_to_be(a),
        pdu.padded(),
{
    let mut pdu = SignalPdu::default();
    put_u64_be(&mut pdu.data, 0, a);
    encode_header(&mut pdu, tag, 8);
    assert(pdu.payload() =~= pdu.data@.subrange(0, 8));
    pdu
}

/// Builds the PDU of two words.
fn pdu_of_words(tag: SignalTag, a: u64, b: u64) -> (pdu: SignalPdu)
    ensures
        pdu.tag == tag,
        pdu.data_len == 16,
        pdu.payload() == spec_u64_to_be(a) + spec_u64_to_be(b),
        pdu.padded(),
{
    let mut pdu = SignalPdu::default();
    put_u64_be(&mut pdu.data, 0, a);
    put_u64_be(&mut pdu.data, 8, b);
    encode_header(&mut pdu, tag, 16);
    assert(pdu.data@.subrange(0, 8) == spec_u64_to_be(a)) by {
        assert(pdu.data@.subrange(0, 8) =~= spec_u64_to_be(a));
    }
    assert(pdu.payload() =~= pdu.data@.subrange(0, 8) + pdu.data@.subrange(8, 16));
    pdu
}

impl SignalPdu {
    /// Encodes a signal: the tag of its variant, and as payload its
    /// identifier, if it has one, followed by its time value, each as a
    /// big-endian integer of eight bytes. The bytes behind the payload are
    /// zero.
    pub fn from(signal: &Signal) -> (pdu: SignalPdu)
        ensures
            pdu.tag == spec_tag(*signal),
            pdu.data_len == spec_payload(*signal).len(),
            pdu.data_len == pdu.tag.spec_payload_len(),
            pdu.payload() == spec_payload(*signal),
            pdu.padded(),
            pdu.wf(),
    {
        match signal {
            Signal::HelloTrigger(id) => pdu_of_word(SignalTag::HelloTrigger, id.0 as u64),
            Signal::HelloReady(id) => pdu_of_word(SignalTag::HelloReady, id.0 as u64),
            Signal::StartupSync(info) => pdu_of_word(SignalTag::StartupSync, info.since_epoch),
            Signal::TaskChainStart(t) => pdu_of_word(SignalTag::TaskChainStart, t.0),
            Signal::TaskChainEnd(t) => pdu_of_word(SignalTag::TaskChainEnd, t.0),
            Signal::Startup((id, t)) => pdu_of_words(SignalTag::Startup, id.0 as u64, t.0),
            Signal::Step((id, t)) => pdu_of_words(SignalTag::Step, id.0 as u64, t.0),
            Signal::Shutdown((id, t)) => pdu_of_words(SignalTag::Shutdown, id.0 as u64, t.0),
            Signal::Ready((id, t)) => pdu_of_words(SignalTag::Ready, id.0 as u64, t.0),
            Signal::RecorderReady((id, t)) => pdu_of_words(
                SignalTag::RecorderReady,
                id.0 as u64,
                t.0,
            ),
        }
    }

    /// Serialises the PDU as a frame: the tag byte, the payload length as a
    /// big-endian integer of two bytes, then the payload. A PDU whose declared
    /// length exceeds the payload limit is rejected as invalid data.
    pub fn to_bytes(&self) -> (r: Result<Vec<u8>, Error>)
        ensures
            self.wf() ==> r is Ok && r->Ok_0@ == spec_frame(self.tag, self.payload()),
            self.wf() ==> r->Ok_0@.len() == PDU_HEADER_SIZE + self.data_len,
            !self.wf() ==> r is Err && r->Err_0.is_io(
                IoErrorKind::InvalidData,
                "max pdu data size exceeded"@,
            ),
    {
        if self.data_len as usize > MAX_PDU_DATA_SIZE {
            return Err(Error::Io((IoErrorKind::InvalidData, "max pdu data size exceeded")));
        }
        let mut out: Vec<u8> = Vec::new();
        out.push(self.tag.to_u8());
        push_u16_be(&mut out, self.data_len);
        let ghost head = out@;
        let n: usize = self.data_len as usize;
        let mut i: usize = 0;
        while i < n
            invariant
                i <= n <= 16,
                n == self.data_len,
                out@ == head + self.data@.take(i as int),
            decreases n - i,
        {
            out.push(self.data[i]);
            i += 1;
            assert(out@ =~= head + self.data@.take(i as int));
        }
        assert(out@ =~= spec_frame(self.tag, self.payload()));
        Ok(out)
    }

    /// Reads the payload length that a frame's header declares. A length over
    /// the payload limit is rejected as invalid data.
    pub fn frame_payload_len(header: &[u8; 3]) -> (r: Result<usize, Error>)
        ensures
            spec_declared_len(header@) <= MAX_PDU_DATA_SIZE ==> r == Ok::<usize, Error>(
                spec_declared_len(header@) as usize,
            ),
            spec_declared_len(header@) > MAX_PDU_DATA_SIZE ==> r is Err && r->Err_0.is_io(
                IoErrorKind::InvalidData,
                "received PDU length exceeds buffer size"@,
            ),
    {
        let n = u16_from_be(header.as_slice(), 1);
        if n as usize > MAX_PDU_DATA_SIZE {
            return Err(
                Error::Io((IoErrorKind::InvalidData, "received PDU length exceeds buffer size")),
            );
        }
        Ok(n as usize)
    }
}

} // verus!
