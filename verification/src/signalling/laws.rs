//! What holds of the codec as a whole: encoding and decoding undo each other.
use vstd::prelude::*;
use crate::be::{
    lemma_u16_be_value_roundtrip, lemma_u64_be_bytes_roundtrip, lemma_u64_be_value_roundtrip, spec_u16_to_be, spec_u64_to_be,
};
use crate::signalling::decode::spec_check_frame;
use crate::signalling::pdu::{
    spec_declared_len, spec_first_word, spec_frame, spec_id_fits, spec_payload, spec_second_word, spec_signal, spec_tag, MAX_PDU_DATA_SIZE, PDU_HEADER_SIZE,
};
use crate::signalling::tag::SignalTag;
use crate::signals::Signal;

verus! {

/// The two words of a payload of sixteen bytes are the words it was made of.
proof fn lemma_words(a: u64, b: u64)
    ensures
        spec_first_word(spec_u64_to_be(a)) == a,
        spec_first_word(spec_u64_to_be(a) + spec_u64_to_be(b)) == a,
        spec_second_word(spec_u64_to_be(a) + spec_u64_to_be(b)) == b,
{
    lemma_u64_be_value_roundtrip(a);
    lemma_u64_be_value_roundtrip(b);
    let p = spec_u64_to_be(a) + spec_u64_to_be(b);
    assert(spec_u64_to_be(a).subrange(0, 8) =~= spec_u64_to_be(a));
    assert(p.subrange(0, 8) =~= spec_u64_to_be(a));
    assert(p.subrange(8, 16) =~= spec_u64_to_be(b));
}

/// Decoding undoes encoding: every signal is encoded with the payload length
/// of its tag, with an identifier that fits, and decodes to itself.
pub proof fn lemma_decode_encode(s: Signal)
    ensures
        spec_payload(s).len() == spec_tag(s).spec_payload_len(),
        spec_id_fits(spec_tag(s), spec_payload(s)),
        spec_signal(spec_tag(s), spec_payload(s)) == s,
{
    match s {
        Signal::HelloTrigger(id) => lemma_words(id.0 as u64, 0),
        Signal::HelloReady(id) => lemma_words(id.0 as u64, 0),
        Signal::StartupSync(info) => lemma_words(info.since_epoch, 0),
        Signal::TaskChainStart(t) => lemma_words(t.0, 0),
        Signal::TaskChainEnd(t) => lemma_words(t.0, 0),
        Signal::Startup((id, t)) => lemma_words(id.0 as u64, t.0),
        Signal::Step((id, t)) => lemma_words(id.0 as u64, t.0),
        Signal::Shutdown((id, t)) => lemma_words(id.0 as u64, t.0),
        Signal::Ready((id, t)) => lemma_words(id.0 as u64, t.0),
        Signal::RecorderReady((id, t)) => lemma_words(id.0 as u64, t.0),
    }
}

/// Encoding is one-to-one: two signals with the same tag and the same payload
/// are the same signal.
pub proof fn lemma_encode_injective(s1: Signal, s2: Signal)
    requires
        spec_tag(s1) == spec_tag(s2),
        spec_payload(s1) == spec_payload(s2),
    ensures
        s1 == s2,
{
    lemma_decode_encode(s1);
    lemma_decode_encode(s2);
}

/// Encoding undoes decoding: a payload of exactly the length of its tag, with
/// an identifier that fits, is the encoding of the signal it decodes to. So
/// every such payload is the encoding of one signal, and of no other.
pub proof fn lemma_encode_decode(tag: SignalTag, payload: Seq<u8>)
    requires
        payload.len() == tag.spec_payload_len(),
        spec_id_fits(tag, payload),
    ensures
        spec_tag(spec_signal(tag, payload)) == tag,
        spec_payload(spec_signal(tag, payload)) == payload,
{
    let a = spec_first_word(payload);
    lemma_u64_be_bytes_roundtrip(payload.subrange(0, 8));
    if payload.len() == 16 {
        lemma_u64_be_bytes_roundtrip(payload.subrange(8, 16));
        assert(payload =~= payload.subrange(0, 8) + payload.subrange(8, 16));
    } else {
        assert(payload =~= payload.subrange(0, 8));
    }
    if tag.carries_id() {
        assert((a as usize) as u64 == a);
    }
}

/// A frame holds its parts where a reader looks for them: it is the header
/// and the payload long, starts with the tag's number, declares the payload's
/// length, and carries the payload behind the header. So what is read from a
/// written frame is what was written.
pub proof fn lemma_frame_parts(tag: SignalTag, payload: Seq<u8>)
    requires
        payload.len() <= MAX_PDU_DATA_SIZE,
    ensures
        spec_frame(tag, payload).len() == PDU_HEADER_SIZE + payload.len(),
        spec_frame(tag, payload).len() <= 24,
        spec_check_frame(spec_frame(tag, payload)) is Whole,
        SignalTag::spec_from_u8(spec_frame(tag, payload)[0]) == Some(tag),
        spec_declared_len(spec_frame(tag, payload)) == payload.len(),
        spec_frame(tag, payload).subrange(
            PDU_HEADER_SIZE as int,
            PDU_HEADER_SIZE + payload.len(),
        ) == payload,
{
    let f = spec_frame(tag, payload);
    let n = payload.len() as u16;
    lemma_u16_be_value_roundtrip(n);
    assert(f.subrange(1, 3) =~= spec_u16_to_be(n));
    assert(f.subrange(PDU_HEADER_SIZE as int, PDU_HEADER_SIZE + payload.len()) =~= payload);
}

/// The round trip of a signal over the wire: the frame of a signal is at most
/// 24 bytes long and is read back as a whole frame with the signal's tag and
/// payload, which decode to the signal.
pub proof fn lemma_signal_roundtrip(s: Signal)
    ensures
        ({
            let f = spec_frame(spec_tag(s), spec_payload(s));
            let n = spec_declared_len(f);
            &&& f.len() <= 24
            &&& spec_check_frame(f) is Whole
            &&& SignalTag::spec_from_u8(f[0]) == Some(spec_tag(s))
            &&& spec_signal(spec_tag(s), f.subrange(PDU_HEADER_SIZE as int, PDU_HEADER_SIZE + n))
                == s
        }),
{
    lemma_decode_encode(s);
    lemma_frame_parts(spec_tag(s), spec_payload(s));
}

} // verus!
