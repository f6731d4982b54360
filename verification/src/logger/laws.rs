//! What holds of the record codec as a whole: decoding undoes encoding.
use vstd::prelude::*;
use vstd::string::StringSliceAdditionalSpecFns;
use vstd::utf8::encode_utf8_valid_utf8;
use crate::be::{
    lemma_u32_be_value_roundtrip, lemma_u64_be_value_roundtrip, spec_u32_to_be, spec_u64_to_be,
};
use crate::logger::codec::{
    spec_encode, spec_file_bytes, spec_line_or_zero, spec_secs, spec_subsec, spec_text,
};
use crate::logger::decode::{spec_decode, spec_text_at, spec_u32_at, Decoded, DecodeFault};
use crate::logger::level::{lemma_level_number_roundtrip, Level};
use crate::logger::record::Record;

verus! {

/// What decoding finds in the encoding of a record.
pub open spec fn spec_decoded(record: Record) -> Decoded {
    Decoded {
        nanos: record.timestamp@,
        level: record.level,
        target: record.target.spec_bytes(),
        file: match record.file {
            Some(f) => Some(f.spec_bytes()),
            None => None,
        },
        line: record.line,
        tgid: record.tgid,
        tid: record.tid,
        args: record.args.spec_bytes(),
    }
}

/// A text that stands at `at` in a buffer is read from there.
proof fn lemma_text_at(b: Seq<u8>, at: int, text: Seq<u8>)
    requires
        0 <= at,
        text.len() <= u32::MAX,
        at + 4 + text.len() <= b.len(),
        b.subrange(at, at + 4 + text.len()) == spec_text(text),
    ensures
        spec_text_at(b, at) == Some((text, at + 4 + text.len())),
{
    let enc = spec_text(text);
    lemma_u32_be_value_roundtrip(text.len() as u32);
    assert(b.subrange(at, at + 4) =~= enc.subrange(0, 4));
    assert(enc.subrange(0, 4) =~= spec_u32_to_be(text.len() as u32));
    assert(spec_u32_at(b, at) == text.len());
    assert(b.subrange(at + 4, at + 4 + text.len()) =~= enc.subrange(4, 4 + text.len() as int));
    assert(enc.subrange(4, 4 + text.len() as int) =~= text);
}

/// A number that stands at `at` in a buffer is read from there.
proof fn lemma_u32_at(b: Seq<u8>, at: int, x: u32)
    requires
        0 <= at,
        at + 4 <= b.len(),
        b.subrange(at, at + 4) == spec_u32_to_be(x),
    ensures
        spec_u32_at(b, at) == x,
{
    lemma_u32_be_value_roundtrip(x);
}

/// Where the parts of a record stand in a buffer that is made of them.
proof fn lemma_layout(
    c0: Seq<u8>,
    c1: Seq<u8>,
    c2: Seq<u8>,
    c3: Seq<u8>,
    c4: Seq<u8>,
    c5: Seq<u8>,
    c6: Seq<u8>,
    c7: Seq<u8>,
    c8: Seq<u8>,
)
    requires
        c0.len() == 8,
        c1.len() == 4,
        c2.len() == 1,
        c5.len() == 4,
        c6.len() == 4,
        c7.len() == 4,
    ensures
        ({
            let b = c0 + c1 + c2 + c3 + c4 + c5 + c6 + c7 + c8;
            let p = 13 + c3.len() as int;
            let q = p + c4.len() as int;
            &&& b.len() == q + 12 + c8.len()
            &&& b.subrange(0, 8) == c0
            &&& b.subrange(8, 12) == c1
            &&& b[12] == c2[0]
            &&& b.subrange(13, p) == c3
            &&& b.subrange(p, q) == c4
            &&& b.subrange(q, q + 4) == c5
            &&& b.subrange(q + 4, q + 8) == c6
            &&& b.subrange(q + 8, q + 12) == c7
            &&& b.subrange(q + 12, q + 12 + c8.len()) == c8
        }),
{
    let b = c0 + c1 + c2 + c3 + c4 + c5 + c6 + c7 + c8;
    let p = 13 + c3.len() as int;
    let q = p + c4.len() as int;
    assert(b.subrange(0, 8) =~= c0);
    assert(b.subrange(8, 12) =~= c1);
    assert(b.subrange(13, p) =~= c3);
    assert(b.subrange(p, q) =~= c4);
    assert(b.subrange(q, q + 4) =~= c5);
    assert(b.subrange(q + 4, q + 8) =~= c6);
    assert(b.subrange(q + 8, q + 12) =~= c7);
    assert(b.subrange(q + 12, q + 12 + c8.len()) =~= c8);
}

/// What decoding finds in a buffer in which the parts of a record stand in
/// their places.
proof fn lemma_decode_of_layout(
    b: Seq<u8>,
    secs: u64,
    subsec: u32,
    level: Level,
    target: Seq<u8>,
    file: Seq<u8>,
    line: u32,
    tgid: u32,
    tid: u32,
    args: Seq<u8>,
)
    requires
        target.len() <= u32::MAX,
        file.len() <= u32::MAX,
        args.len() <= u32::MAX,
        vstd::utf8::valid_utf8(target),
        file.len() > 0 ==> vstd::utf8::valid_utf8(file),
        vstd::utf8::valid_utf8(args),
        spec_laid_out(b, secs, subsec, level, target, file, line, tgid, tid, args),
    ensures
        spec_decode(b) == Ok::<Decoded, DecodeFault>(
            Decoded {
                nanos: (secs * 1_000_000_000 + subsec) as nat,
                level,
                target,
                file: if file.len() == 0 {
                    None
                } else {
                    Some(file)
                },
                line: if line == 0 {
                    None
                } else {
                    Some(line)
                },
                tgid,
                tid,
                args,
            },
        ),
{
    let p = 17 + target.len() as int;
    let q = p + 4 + file.len() as int;
    lemma_u64_be_value_roundtrip(secs);
    lemma_u32_at(b, 8, subsec);
    lemma_level_number_roundtrip(level);
    lemma_text_at(b, 13, target);
    lemma_text_at(b, p, file);
    lemma_u32_at(b, q, line);
    lemma_u32_at(b, q + 4, tgid);
    lemma_u32_at(b, q + 8, tid);
    lemma_text_at(b, q + 12, args);
}

/// Whether the parts of a record stand in their places in a buffer.
pub open spec fn spec_laid_out(
    b: Seq<u8>,
    secs: u64,
    subsec: u32,
    level: Level,
    target: Seq<u8>,
    file: Seq<u8>,
    line: u32,
    tgid: u32,
    tid: u32,
    args: Seq<u8>,
) -> bool {
    let p = 17 + target.len() as int;
    let q = p + 4 + file.len() as int;
    &&& b.len() == q + 16 + args.len()
    &&& b.subrange(0, 8) == spec_u64_to_be(secs)
    &&& b.subrange(8, 12) == spec_u32_to_be(subsec)
    &&& b[12] == level.spec_to_u8()
    &&& b.subrange(13, p) == spec_text(target)
    &&& b.subrange(p, q) == spec_text(file)
    &&& b.subrange(q, q + 4) == spec_u32_to_be(line)
    &&& b.subrange(q + 4, q + 8) == spec_u32_to_be(tgid)
    &&& b.subrange(q + 8, q + 12) == spec_u32_to_be(tid)
    &&& b.subrange(q + 12, q + 16 + args.len()) == spec_text(args)
}

/// The parts of a record stand in their places in its encoding.
proof fn lemma_encode_layout(record: Record)
    ensures
        spec_laid_out(
            spec_encode(record),
            spec_secs(record.timestamp) as u64,
            spec_subsec(record.timestamp) as u32,
            record.level,
            record.target.spec_bytes(),
            spec_file_bytes(record),
            spec_line_or_zero(record),
            record.tgid,
            record.tid,
            record.args.spec_bytes(),
        ),
{
    lemma_layout(
        spec_u64_to_be(spec_secs(record.timestamp) as u64),
        spec_u32_to_be(spec_subsec(record.timestamp) as u32),
        seq![record.level.spec_to_u8()],
        spec_text(record.target.spec_bytes()),
        spec_text(spec_file_bytes(record)),
        spec_u32_to_be(spec_line_or_zero(record)),
        spec_u32_to_be(record.tgid),
        spec_u32_to_be(record.tid),
        spec_text(record.args.spec_bytes()),
    );
}

/// The bytes of a text are valid UTF-8.
proof fn lemma_text_valid(s: &str)
    ensures
        vstd::utf8::valid_utf8(s.spec_bytes()),
{
    encode_utf8_valid_utf8(s@);
}

/// Decoding undoes encoding: the encoding of a record that can be encoded is
/// decoded to what the record holds. A record with an empty source file or
/// with the line zero is left out: on the wire both stand for "unknown".
pub proof fn lemma_record_roundtrip(record: Record)
    requires
        record.spec_encodable(),
        record.file is Some ==> record.file->Some_0.spec_bytes().len() > 0,
        record.line != Some(0u32),
    ensures
        spec_decode(spec_encode(record)) == Ok::<Decoded, DecodeFault>(spec_decoded(record)),
{
    let secs = spec_secs(record.timestamp) as u64;
    let subsec = spec_subsec(record.timestamp) as u32;
    lemma_encode_layout(record);
    lemma_text_valid(record.target);
    lemma_text_valid(record.args);
    if record.file is Some {
        lemma_text_valid(record.file->Some_0);
    }
    lemma_decode_of_layout(
        spec_encode(record),
        secs,
        subsec,
        record.level,
        record.target.spec_bytes(),
        spec_file_bytes(record),
        spec_line_or_zero(record),
        record.tgid,
        record.tid,
        record.args.spec_bytes(),
    );
    assert(secs * 1_000_000_000 + subsec == record.timestamp@);
}

} // verus!
