//! Decoding log records.
use vstd::prelude::*;
use vstd::utf8::{decode_utf8, valid_utf8};
use crate::be::{spec_u32_from_be, spec_u64_from_be};
use crate::error::{Error, IoErrorKind};
use crate::feo_time::system_time::SystemTime;
use crate::logger::level::Level;
use crate::logger::record::{read_u32_be, read_u64_be, read_u8_be, Cursor, OwnedRecord};
use crate::logger::render::string_from_utf8;

verus! {

/// Why a buffer is no encoded record.
#[derive(Debug, Clone, Copy, PartialEq, Eq, Structural)]
pub enum DecodeFault {
    /// The buffer ends before the record does.
    Eof,
    /// The level is none of the five.
    Level,
    /// The target is not valid UTF-8.
    Target,
    /// The source file is not valid UTF-8.
    File,
    /// The message is not valid UTF-8.
    Args,
}

/// What an encoded record holds.
pub struct Decoded {
    /// The time in nanoseconds since the Unix epoch.
    pub nanos: nat,
    /// The level.
    pub level: Level,
    /// The bytes of the target.
    pub target: Seq<u8>,
    /// The bytes of the source file, where there is one.
    pub file: Option<Seq<u8>>,
    /// The line, where there is one.
    pub line: Option<u32>,
    /// The process id.
    pub tgid: u32,
    /// The thread id.
    pub tid: u32,
    /// The bytes of the message.
    pub args: Seq<u8>,
}

/// The number in the four bytes at `at`.
pub open spec fn spec_u32_at(b: Seq<u8>, at: int) -> u32 {
    spec_u32_from_be(b.subrange(at, at + 4))
}

/// The text at `at` and the place behind it; nothing where the buffer ends
/// inside the text.
pub open spec fn spec_text_at(b: Seq<u8>, at: int) -> Option<(Seq<u8>, int)> {
    if b.len() < at + 4 {
        None
    } else if b.len() < at + 4 + spec_u32_at(b, at) {
        None
    } else {
        Some((b.subrange(at + 4, at + 4 + spec_u32_at(b, at)), at + 4 + spec_u32_at(b, at)))
    }
}

/// What is read behind the source file: the line, the ids and the message.
pub open spec fn spec_decode_tail(
    b: Seq<u8>,
    at: int,
    nanos: nat,
    level: Level,
    target: Seq<u8>,
    file: Option<Seq<u8>>,
) -> Result<Decoded, DecodeFault> {
    if b.len() < at + 12 {
        Err(DecodeFault::Eof)
    } else {
        match spec_text_at(b, at + 12) {
            None => Err(DecodeFault::Eof),
            Some((args, _)) => if !valid_utf8(args) {
                Err(DecodeFault::Args)
            } else {
                Ok(
                    Decoded {
                        nanos,
                        level,
                        target,
                        file,
                        line: if spec_u32_at(b, at) == 0 {
                            None
                        } else {
                            Some(spec_u32_at(b, at))
                        },
                        tgid: spec_u32_at(b, at + 4),
                        tid: spec_u32_at(b, at + 8),
                        args,
                    },
                )
            },
        }
    }
}

/// What a buffer holds as an encoded record, read from its start and in the
/// order of the encoding; the first fault that is met ends the reading. Bytes
/// behind the record are not looked at.
pub open spec fn spec_decode(b: Seq<u8>) -> Result<Decoded, DecodeFault> {
    if b.len() < 13 {
        Err(DecodeFault::Eof)
    } else {
        let nanos = (spec_u64_from_be(b.subrange(0, 8)) * 1_000_000_000 + spec_u32_at(b, 8)) as nat;
        match Level::spec_from_u8(b[12]) {
            None => Err(DecodeFault::Level),
            Some(level) => match spec_text_at(b, 13) {
                None => Err(DecodeFault::Eof),
                Some((target, p)) => if !valid_utf8(target) {
                    Err(DecodeFault::Target)
                } else {
                    match spec_text_at(b, p) {
                        None => Err(DecodeFault::Eof),
                        Some((file, q)) => if file.len() == 0 {
                            spec_decode_tail(b, q, nanos, level, target, None)
                        } else if !valid_utf8(file) {
                            Err(DecodeFault::File)
                        } else {
                            spec_decode_tail(b, q, nanos, level, target, Some(file))
                        },
                    }
                },
            },
        }
    }
}

/// Whether the error is the one that stands for the fault.
pub open spec fn spec_is_fault(e: Error, fault: DecodeFault) -> bool {
    match fault {
        DecodeFault::Eof => e.is_io(IoErrorKind::UnexpectedEof, "failed to fill whole buffer"@),
        DecodeFault::Level => e.is_io(IoErrorKind::InvalidData, "invalid level"@),
        DecodeFault::Target => e.is_io(IoErrorKind::InvalidData, "invalid target"@),
        DecodeFault::File => e.is_io(IoErrorKind::InvalidData, "invalid file"@),
        DecodeFault::Args => e.is_io(IoErrorKind::InvalidData, "invalid args"@),
    }
}

/// Whether the record holds what was decoded, its texts being the strings
/// that the decoded bytes encode.
pub open spec fn spec_holds(r: OwnedRecord, d: Decoded) -> bool {
    &&& r.timestamp@ == d.nanos
    &&& r.level == d.level
    &&& r.target@ == decode_utf8(d.target)
    &&& r.file is Some <==> d.file is Some
    &&& r.file is Some ==> r.file->Some_0@ == decode_utf8(d.file->Some_0)
    &&& r.line == d.line
    &&& r.tgid == d.tgid
    &&& r.tid == d.tid
    &&& r.args@ == decode_utf8(d.args)
}

/// Reads a text: its length, then its bytes.
fn read_text<'a>(r: &mut Cursor<'a>) -> (v: Result<Vec<u8>, Error>)
    requires
        old(r).wf(),
    ensures
        final(r).wf(),
        final(r).data@ == old(r).data@,
        match spec_text_at(old(r).data@, old(r).pos as int) {
            Some((text, behind)) => v is Ok && v->Ok_0@ == text && final(r).pos == behind,
            None => v is Err && spec_is_fault(v->Err_0, DecodeFault::Eof),
        },
{
    let ghost start = r.pos as int;
    let len = read_u32_be(r)?;
    assert(old(r).rest().take(4) =~= r.data@.subrange(start, start + 4));
    let at = r.advance(len as usize)?;
    let mut out: Vec<u8> = Vec::new();
    let n = len as usize;
    let total = r.data.len();
    let mut i: usize = 0;
    while i < n
        invariant
            i <= n,
            at + n <= total,
            total == r.data@.len(),
            out@ == r.data@.subrange(at as int, at + i),
        decreases n - i,
    {
        out.push(r.data[at + i]);
        i += 1;
        assert(out@ =~= r.data@.subrange(at as int, at + i));
    }
    Ok(out)
}

/// Reads what stands behind the source file and makes the record.
fn decode_tail<'a>(
    r: &mut Cursor<'a>,
    timestamp: SystemTime,
    level: Level,
    target: String,
    file: Option<String>,
    Ghost(target_bytes): Ghost<Seq<u8>>,
    Ghost(file_bytes): Ghost<Option<Seq<u8>>>,
) -> (v: Result<OwnedRecord, Error>)
    requires
        old(r).wf(),
        target@ == decode_utf8(target_bytes),
        file is Some <==> file_bytes is Some,
        file is Some ==> file->Some_0@ == decode_utf8(file_bytes->Some_0),
    ensures
        match spec_decode_tail(
            old(r).data@,
            old(r).pos as int,
            timestamp@,
            level,
            target_bytes,
            file_bytes,
        ) {
            Ok(d) => v is Ok && spec_holds(v->Ok_0, d),
            Err(fault) => v is Err && spec_is_fault(v->Err_0, fault),
        },
{
    let ghost b = r.data@;
    let ghost at = r.pos as int;
    let n = read_u32_be(r)?;
    assert(old(r).rest().take(4) =~= b.subrange(at, at + 4));
    let ghost r1 = *r;
    let tgid = read_u32_be(r)?;
    assert(r1.rest().take(4) =~= b.subrange(at + 4, at + 8));
    let ghost r2 = *r;
    let tid = read_u32_be(r)?;
    assert(r2.rest().take(4) =~= b.subrange(at + 8, at + 12));
    let args_bytes = read_text(r)?;
    let args = match string_from_utf8(args_bytes) {
        Some(s) => s,
        None => {
            return Err(Error::Io((IoErrorKind::InvalidData, "invalid args")));
        },
    };
    let line = if n == 0 {
        None
    } else {
        Some(n)
    };
    Ok(OwnedRecord { timestamp, level, target, file, line, tgid, tid, args })
}

impl OwnedRecord {
    /// Decodes a record from the start of a buffer. The reading fails at the
    /// first fault: where the buffer ends before the record does, where the
    /// level is none of the five, where a text is not valid UTF-8. A source
    /// file of length zero and a line zero stand for an unknown file and an
    /// unknown line.
    pub fn decode(r: &[u8]) -> (v: Result<OwnedRecord, Error>)
        ensures
            match spec_decode(r@) {
                Ok(d) => v is Ok && spec_holds(v->Ok_0, d),
                Err(fault) => v is Err && spec_is_fault(v->Err_0, fault),
            },
    {
        let mut c = Cursor::new(r);
        let ghost b = r@;
        let secs = read_u64_be(&mut c)?;
        assert(b.skip(0).take(8) =~= b.subrange(0, 8));
        let ghost c1 = c;
        let nanos = read_u32_be(&mut c)?;
        assert(c1.rest().take(4) =~= b.subrange(8, 12));
        let ghost c2 = c;
        let tag = read_u8_be(&mut c)?;
        assert(c2.rest()[0] == b[12]);
        let timestamp = SystemTime { nanos: secs as u128 * 1_000_000_000 + nanos as u128 };
        let level = match Level::from_u8(tag) {
            Some(level) => level,
            None => {
                return Err(Error::Io((IoErrorKind::InvalidData, "invalid level")));
            },
        };
        let target_bytes = read_text(&mut c)?;
        let ghost target_seq = target_bytes@;
        let target = match string_from_utf8(target_bytes) {
            Some(s) => s,
            None => {
                return Err(Error::Io((IoErrorKind::InvalidData, "invalid target")));
            },
        };
        let file_bytes = read_text(&mut c)?;
        let ghost file_seq = file_bytes@;
        if file_bytes.len() == 0 {
            return decode_tail(
                &mut c,
                timestamp,
                level,
                target,
                None,
                Ghost(target_seq),
                Ghost(None),
            );
        }
        let file = match string_from_utf8(file_bytes) {
            Some(s) => s,
            None => {
                return Err(Error::Io((IoErrorKind::InvalidData, "invalid file")));
            },
        };
        decode_tail(
            &mut c,
            timestamp,
            level,
            target,
            Some(file),
            Ghost(target_seq),
            Ghost(Some(file_seq)),
        )
    }
}

} // verus!
