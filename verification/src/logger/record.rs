//! The log record on the wire, and the cursor that reads it.
use vstd::prelude::*;
use crate::be::{spec_u32_from_be, spec_u64_from_be, u32_from_be, u64_from_be};
use crate::error::{Error, IoErrorKind};
use crate::feo_time::system_time::SystemTime;
use crate::logger::level::Level;

verus! {

/// A reader over a buffer of bytes: what lies before the position has been
/// read.
pub struct Cursor<'a> {
    /// The buffer.
    pub data: &'a [u8],
    /// The number of bytes read so far.
    pub pos: usize,
}

impl<'a> Cursor<'a> {
    /// A cursor at the start of the buffer.
    pub fn new(data: &'a [u8]) -> (c: Cursor<'a>)
        ensures
            c.data@ == data@,
            c.pos == 0,
    {
        Cursor { data, pos: 0 }
    }

    /// The bytes not yet read.
    pub open spec fn rest(&self) -> Seq<u8> {
        self.data@.skip(self.pos as int)
    }

    /// The position does not lie behind the end of the buffer.
    pub open spec fn wf(&self) -> bool {
        self.pos <= self.data@.len()
    }

    /// Moves the position `n` bytes on if that many bytes are left. Where
    /// fewer are left, the read fails and the position moves to the end.
    pub fn advance(&mut self, n: usize) -> (r: Result<usize, Error>)
        requires
            old(self).wf(),
        ensures
            final(self).wf(),
            final(self).data@ == old(self).data@,
            old(self).rest().len() >= n ==> r == Ok::<usize, Error>(old(self).pos) && final(self).pos == old(self).pos + n,
            old(self).rest().len() < n ==> r is Err && r->Err_0.is_io(
                IoErrorKind::UnexpectedEof,
                "failed to fill whole buffer"@,
            ) && final(self).pos == old(self).data@.len(),
    {
        if self.data.len() - self.pos < n {
            self.pos = self.data.len();
            return Err(Error::Io((IoErrorKind::UnexpectedEof, "failed to fill whole buffer")));
        }
        let at = self.pos;
        self.pos = self.pos + n;
        Ok(at)
    }
}

/// Reads one byte.
pub fn read_u8_be(r: &mut Cursor) -> (v: Result<u8, Error>)
    requires
        old(r).wf(),
    ensures
        final(r).wf(),
        final(r).data@ == old(r).data@,
        old(r).rest().len() >= 1 ==> v == Ok::<u8, Error>(old(r).rest()[0]) && final(r).pos == old(r).pos + 1,
        old(r).rest().len() < 1 ==> v is Err && v->Err_0.is_io(
            IoErrorKind::UnexpectedEof,
            "failed to fill whole buffer"@,
        ) && final(r).pos == old(r).data@.len(),
{
    let at = r.advance(1)?;
    Ok(r.data[at])
}

/// Reads a big-endian integer of four bytes.
pub fn read_u32_be(r: &mut Cursor) -> (v: Result<u32, Error>)
    requires
        old(r).wf(),
    ensures
        final(r).wf(),
        final(r).data@ == old(r).data@,
        old(r).rest().len() >= 4 ==> v == Ok::<u32, Error>(
            spec_u32_from_be(old(r).rest().take(4)),
        ) && final(r).pos == old(r).pos + 4,
        old(r).rest().len() < 4 ==> v is Err && v->Err_0.is_io(
            IoErrorKind::UnexpectedEof,
            "failed to fill whole buffer"@,
        ) && final(r).pos == old(r).data@.len(),
{
    let at = r.advance(4)?;
    assert(r.data@.subrange(at as int, at + 4) =~= old(r).rest().take(4));
    Ok(u32_from_be(r.data, at))
}

/// Reads a big-endian integer of eight bytes.
pub fn read_u64_be(r: &mut Cursor) -> (v: Result<u64, Error>)
    requires
        old(r).wf(),
    ensures
        final(r).wf(),
        final(r).data@ == old(r).data@,
        old(r).rest().len() >= 8 ==> v == Ok::<u64, Error>(
            spec_u64_from_be(old(r).rest().take(8)),
        ) && final(r).pos == old(r).pos + 8,
        old(r).rest().len() < 8 ==> v is Err && v->Err_0.is_io(
            IoErrorKind::UnexpectedEof,
            "failed to fill whole buffer"@,
        ) && final(r).pos == old(r).data@.len(),
{
    let at = r.advance(8)?;
    assert(r.data@.subrange(at as int, at + 8) =~= old(r).rest().take(8));
    Ok(u64_from_be(r.data, at))
}

} // verus!

verus! {

/// A log record, borrowing its texts.
#[derive(Debug, Clone, Copy)]
pub struct Record<'a> {
    /// When the record was made.
    pub timestamp: SystemTime,
    /// How grave it is.
    pub level: Level,
    /// What it is about.
    pub target: &'a str,
    /// The source file it comes from, where that is known.
    pub file: Option<&'a str>,
    /// The line of the source file, where that is known.
    pub line: Option<u32>,
    /// The id of the process it comes from.
    pub tgid: u32,
    /// The id of the thread it comes from.
    pub tid: u32,
    /// The message.
    pub args: &'a str,
}

/// A log record, owning its texts.
#[derive(Debug)]
pub struct OwnedRecord {
    /// When the record was made.
    pub timestamp: SystemTime,
    /// How grave it is.
    pub level: Level,
    /// What it is about.
    pub target: String,
    /// The source file it comes from, where that is known.
    pub file: Option<String>,
    /// The line of the source file, where that is known.
    pub line: Option<u32>,
    /// The id of the process it comes from.
    pub tgid: u32,
    /// The id of the thread it comes from.
    pub tid: u32,
    /// The message.
    pub args: String,
}

impl<'a> Record<'a> {
    /// Creates a new record.
    pub fn new(
        timestamp: SystemTime,
        level: Level,
        target: &'a str,
        file: Option<&'a str>,
        line: Option<u32>,
        tgid: u32,
        tid: u32,
        args: &'a str,
    ) -> (r: Record<'a>)
        ensures
            r.timestamp == timestamp,
            r.level == level,
            r.target == target,
            r.file == file,
            r.line == line,
            r.tgid == tgid,
            r.tid == tid,
            r.args == args,
    {
        Record { timestamp, level, target, file, line, tgid, tid, args }
    }
}

impl OwnedRecord {
    /// Whether `r` is this record with its texts borrowed.
    pub open spec fn spec_borrowed(&self, r: Record) -> bool {
        &&& r.timestamp == self.timestamp
        &&& r.level == self.level
        &&& r.target@ == self.target@
        &&& r.file is Some <==> self.file is Some
        &&& r.file is Some ==> r.file->Some_0@ == self.file->Some_0@
        &&& r.line == self.line
        &&& r.tgid == self.tgid
        &&& r.tid == self.tid
        &&& r.args@ == self.args@
    }

    /// The record with its texts borrowed.
    pub fn as_record(&self) -> (r: Record<'_>)
        ensures
            self.spec_borrowed(r),
    {
        let file = match &self.file {
            Some(f) => Some(f.as_str()),
            None => None,
        };
        Record {
            timestamp: self.timestamp,
            level: self.level,
            target: self.target.as_str(),
            file,
            line: self.line,
            tgid: self.tgid,
            tid: self.tid,
            args: self.args.as_str(),
        }
    }
}

} // verus!
