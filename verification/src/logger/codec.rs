//! The encoding of log records.
//!
//! A record is encoded as: the time as seconds since the Unix epoch (eight
//! bytes) and nanoseconds beyond them (four bytes); the level (one byte); the
//! target; the source file, empty where it is unknown; the line, zero where
//! it is unknown; the process id; the thread id; the message. Every number is
//! big-endian, the ids and the line in four bytes; every text is its length
//! in four bytes followed by its bytes.
use vstd::prelude::*;
use vstd::string::StringSliceAdditionalSpecFns;
use crate::be::{push_u32_be, push_u64_be, spec_u32_to_be, spec_u64_to_be};
use crate::feo_time::system_time::SystemTime;
use crate::logger::record::Record;

verus! {

/// The largest record that is sent to the log daemon, in bytes.
pub const MAX_RECORD_SIZE: usize = 8192;

/// The encoding of a text: its length, then its bytes.
pub open spec fn spec_text(bytes: Seq<u8>) -> Seq<u8> {
    spec_u32_to_be(bytes.len() as u32) + bytes
}

/// The bytes of the source file of a record; none where it is unknown.
pub open spec fn spec_file_bytes(record: Record) -> Seq<u8> {
    match record.file {
        Some(f) => f.spec_bytes(),
        None => Seq::empty(),
    }
}

/// The line of a record as it is encoded: zero where it is unknown.
pub open spec fn spec_line_or_zero(record: Record) -> u32 {
    match record.line {
        Some(n) => n,
        None => 0,
    }
}

/// The whole seconds of a time.
pub open spec fn spec_secs(t: SystemTime) -> nat {
    t@ / 1_000_000_000
}

/// The nanoseconds of a time beyond its whole seconds.
pub open spec fn spec_subsec(t: SystemTime) -> nat {
    t@ % 1_000_000_000
}

/// The encoding of a record.
pub open spec fn spec_encode(record: Record) -> Seq<u8> {
    spec_u64_to_be(spec_secs(record.timestamp) as u64) + spec_u32_to_be(
        spec_subsec(record.timestamp) as u32,
    ) + seq![record.level.spec_to_u8()] + spec_text(record.target.spec_bytes()) + spec_text(
        spec_file_bytes(record),
    ) + spec_u32_to_be(spec_line_or_zero(record)) + spec_u32_to_be(record.tgid) + spec_u32_to_be(record.tid) + spec_text(
        record.args.spec_bytes(),
    )
}

/// Appends the encoding of a text.
fn push_text(out: &mut Vec<u8>, bytes: &[u8])
    requires
        bytes@.len() <= u32::MAX,
    ensures
        final(out)@ == old(out)@ + spec_text(bytes@),
{
    push_u32_be(out, bytes.len() as u32);
    let ghost head = out@;
    let mut i: usize = 0;
    assert(out@ =~= head + bytes@.take(0));
    while i < bytes.len()
        invariant
            i <= bytes@.len(),
            out@ == head + bytes@.take(i as int),
        decreases bytes@.len() - i,
    {
        out.push(bytes[i]);
        i += 1;
        assert(out@ =~= head + bytes@.take(i as int));
    }
    assert(bytes@.take(bytes@.len() as int) =~= bytes@);
    assert(out@ =~= old(out)@ + spec_text(bytes@));
}

impl<'a> Record<'a> {
    /// Whether the record can be encoded: its time is within what eight
    /// bytes of seconds tell, and each of its texts is within what four bytes
    /// of length tell.
    pub open spec fn spec_encodable(&self) -> bool {
        &&& spec_secs(self.timestamp) <= u64::MAX
        &&& self.target.spec_bytes().len() <= u32::MAX
        &&& spec_file_bytes(*self).len() <= u32::MAX
        &&& self.args.spec_bytes().len() <= u32::MAX
    }

    /// Returns whether the record can be encoded.
    #[verifier::when_used_as_spec(spec_encodable)]
    pub fn encodable(&self) -> (b: bool)
        ensures
            b == self.spec_encodable(),
    {
        let file_len = match self.file {
            Some(f) => f.as_bytes().len(),
            None => 0,
        };
        self.timestamp.nanos / 1_000_000_000 <= u64::MAX as u128 && self.target.as_bytes().len()
            <= u32::MAX as usize && file_len <= u32::MAX as usize && self.args.as_bytes().len()
            <= u32::MAX as usize
    }

    /// Returns the length of the encoded record in bytes: 37 bytes of numbers
    /// and lengths, and the bytes of the three texts.
    pub fn encoded_len(&self) -> (len: usize)
        requires
            self.spec_encodable(),
            37 + self.target.spec_bytes().len() + spec_file_bytes(*self).len()
                + self.args.spec_bytes().len() <= usize::MAX,
        ensures
            len == spec_encode(*self).len(),
            len == 37 + self.target.spec_bytes().len() + spec_file_bytes(*self).len()
                + self.args.spec_bytes().len(),
    {
        let file_len: usize = match self.file {
            Some(f) => f.as_bytes().len(),
            None => 0,
        };
        37 + self.target.as_bytes().len() + file_len + self.args.as_bytes().len()
    }

    /// Encodes the record.
    pub fn encode(&self) -> (out: Vec<u8>)
        requires
            self.spec_encodable(),
        ensures
            out@ == spec_encode(*self),
    {
        let mut out: Vec<u8> = Vec::new();
        push_u64_be(&mut out, (self.timestamp.nanos / 1_000_000_000) as u64);
        push_u32_be(&mut out, (self.timestamp.nanos % 1_000_000_000) as u32);
        out.push(self.level.to_u8());
        push_text(&mut out, self.target.as_bytes());
        match self.file {
            Some(f) => {
                push_text(&mut out, f.as_bytes());
            },
            None => {
                push_u32_be(&mut out, 0);
                assert(spec_text(Seq::<u8>::empty()) =~= spec_u32_to_be(0));
            },
        }
        push_u32_be(
            &mut out,
            match self.line {
                Some(n) => n,
                None => 0,
            },
        );
        push_u32_be(&mut out, self.tgid);
        push_u32_be(&mut out, self.tid);
        push_text(&mut out, self.args.as_bytes());
        assert(out@ =~= spec_encode(*self));
        out
    }
}

} // verus!
