//! Pieces of the console format: the width of identifiers and the colours
//! that tell processes, threads and targets apart.
use vstd::prelude::*;
use vstd::string::StringExecFns;
use vstd::string::StringSliceAdditionalSpecFns;
use crate::feo_time::system_time::SystemTime;
use crate::logger::level::{Color, Level};
use crate::logger::record::{OwnedRecord, Record};
use crate::logger::render::{
    format_unix_nanos, paint, paint_bold, spec_format_unix_nanos, spec_is_painted,
};
use crate::text::{
    decimal, hex, pad_left, pad_right, spec_decimal, spec_fill, spec_hex, spec_spaces,
};

verus! {

/// The number of hex digits needed to write `n`.
pub open spec fn spec_num_hex_digits(n: nat) -> nat
    decreases n,
{
    if n < 16 {
        1
    } else {
        1 + spec_num_hex_digits(n / 16)
    }
}

/// Calculates the number of hex digits needed to represent `n`: one for
/// every four bits up to the highest bit set, and one for zero.
pub fn num_hex_digits(n: u32) -> (d: usize)
    ensures
        d == spec_num_hex_digits(n as nat),
        1 <= d <= 8,
{
    let mut d: usize = 1;
    let mut rest: u32 = n;
    proof {
        lemma_num_hex_digits_bound(n as nat);
    }
    while rest >= 16
        invariant
            1 <= d,
            spec_num_hex_digits(n as nat) == (d - 1) + spec_num_hex_digits(rest as nat),
            d - 1 + spec_num_hex_digits(rest as nat) <= 8,
        decreases rest,
    {
        rest = rest / 16;
        d += 1;
    }
    d
}

/// The number of hex digits of a 32-bit number is at most eight.
pub proof fn lemma_num_hex_digits_bound(n: nat)
    ensures
        n < 16 ==> spec_num_hex_digits(n) == 1,
        n < 0x1_0000_0000 ==> spec_num_hex_digits(n) <= 8,
{
    reveal_with_fuel(spec_num_hex_digits, 9);
}

/// The colour of a number: the low byte of the number, moved off the colours
/// that are hard to read on a dark terminal.
pub open spec fn spec_color_of_number(v: u64) -> u8 {
    let c = (v % 256) as u8;
    if c <= 1 {
        (c + 2) as u8
    } else if 16 <= c <= 21 {
        (c + 6) as u8
    } else if 52 <= c <= 55 || 126 <= c <= 129 {
        (c + 4) as u8
    } else if 163 <= c <= 165 || 200 <= c <= 201 {
        (c + 3) as u8
    } else if c == 207 {
        (c + 1) as u8
    } else if 232 <= c <= 240 {
        (c + 9) as u8
    } else {
        c
    }
}

/// Returns the colour, one of 256, in which a number is shown.
pub fn color_of_number(v: u64) -> (c: u8)
    ensures
        c == spec_color_of_number(v),
{
    let c: u8 = (v % 256) as u8;
    if c <= 1 {
        c + 2
    } else if 16 <= c && c <= 21 {
        c + 6
    } else if (52 <= c && c <= 55) || (126 <= c && c <= 129) {
        c + 4
    } else if (163 <= c && c <= 165) || (200 <= c && c <= 201) {
        c + 3
    } else if c == 207 {
        c + 1
    } else if 232 <= c && c <= 240 {
        c + 9
    } else {
        c
    }
}

/// The colour of a text: all its bytes folded into 42 by exclusive or.
pub open spec fn spec_color_of_bytes(bytes: Seq<u8>) -> u8
    decreases bytes.len(),
{
    if bytes.len() == 0 {
        42
    } else {
        spec_color_of_bytes(bytes.drop_last()) ^ bytes.last()
    }
}

/// Returns the colour, one of 256, in which a text is shown.
pub fn color_of_bytes(bytes: &[u8]) -> (c: u8)
    ensures
        c == spec_color_of_bytes(bytes@),
{
    let mut c: u8 = 42;
    let mut i: usize = 0;
    assert(bytes@.take(0) =~= Seq::empty());
    while i < bytes.len()
        invariant
            i <= bytes@.len(),
            c == spec_color_of_bytes(bytes@.take(i as int)),
        decreases bytes@.len() - i,
    {
        c = c ^ bytes[i];
        i += 1;
        proof {
            assert(bytes@.take(i as int).drop_last() =~= bytes@.take(i - 1));
        }
    }
    assert(bytes@.take(bytes@.len() as int) =~= bytes@);
    c
}

} // verus!

verus! {

/// The format of the time of day at the head of a log line: hours, minutes,
/// seconds and milliseconds.
pub const TIMESTAMP_FORMAT: &'static str = "[hour]:[minute]:[second].[subsecond digits:3]";

/// The widths of the columns of the console output. A column grows with the
/// widest entry seen and never shrinks.
#[derive(Debug, Clone, Copy, PartialEq, Eq, Structural)]
pub struct Widths {
    /// The width of the target column.
    pub target: usize,
    /// The width of the process id column.
    pub tgid: usize,
    /// The width of the thread id column.
    pub tid: usize,
}

/// The larger of two widths.
pub open spec fn spec_max(a: usize, b: usize) -> usize {
    if a >= b {
        a
    } else {
        b
    }
}

/// The texts of which a log line is put together.
pub struct LineParts<'a> {
    /// The time of day.
    pub timestamp: &'a str,
    /// The target, padded and coloured.
    pub target: &'a str,
    /// The process id, padded and coloured.
    pub tgid: &'a str,
    /// The thread id, padded and coloured.
    pub tid: &'a str,
    /// The level, padded and coloured.
    pub level: &'a str,
    /// The source file, coloured, and the line; on trace level only.
    pub location: Option<(&'a str, u32)>,
    /// The message.
    pub message: &'a str,
}

/// The log line of the given parts: time, target, process and thread in
/// brackets, level, on trace level the location, and the message.
pub open spec fn spec_line(
    timestamp: Seq<char>,
    target: Seq<char>,
    tgid: Seq<char>,
    tid: Seq<char>,
    level: Seq<char>,
    location: Option<(Seq<char>, u32)>,
    message: Seq<char>,
) -> Seq<char> {
    let head = timestamp + " "@ + target + " ("@ + tgid + " "@ + tid + "): "@ + level + ": "@;
    let place = match location {
        Some((file, line)) => file + ":"@ + spec_decimal(line as nat) + ": "@,
        None => Seq::empty(),
    };
    head + place + message + "\n"@
}

impl Widths {
    /// The widths at the start: sixteen for the target, four for each id.
    pub fn new() -> (w: Widths)
        ensures
            w.target == 16,
            w.tgid == 4,
            w.tid == 4,
    {
        Widths { target: 16, tgid: 4, tid: 4 }
    }
}

impl<'a> LineParts<'a> {
    /// The location of the parts as texts.
    pub open spec fn spec_location(&self) -> Option<(Seq<char>, u32)> {
        match self.location {
            Some((file, line)) => Some((file@, line)),
            None => None,
        }
    }

    /// Puts the log line together.
    pub fn assemble(&self) -> (line: String)
        ensures
            line@ == spec_line(
                self.timestamp@,
                self.target@,
                self.tgid@,
                self.tid@,
                self.level@,
                self.spec_location(),
                self.message@,
            ),
    {
        let mut line = String::from_str(self.timestamp);
        line.append(" ");
        line.append(self.target);
        line.append(" (");
        line.append(self.tgid);
        line.append(" ");
        line.append(self.tid);
        line.append("): ");
        line.append(self.level);
        line.append(": ");
        let ghost head = line@;
        match self.location {
            Some((file, number)) => {
                let digits = decimal(number as u64);
                line.append(file);
                line.append(":");
                line.append(digits.as_str());
                line.append(": ");
                assert(line@ =~= head + (file@ + ":"@ + spec_decimal(number as nat) + ": "@));
            },
            None => {
                assert(line@ =~= head + Seq::<char>::empty());
            },
        }
        line.append(self.message);
        line.append("\n");
        line
    }
}

/// Whether `line` is a log line of the record in columns of the given widths:
/// the time of day as given, the target filled up to its column, the process
/// id in hex filled up on the right and the thread id in hex filled up on the
/// left, the level's name filled up to five characters, each of them
/// coloured or not, on trace level the source file and the line, and the
/// message.
pub open spec fn spec_is_line_of(
    line: Seq<char>,
    record: Record,
    widths: Widths,
    timestamp: Seq<char>,
) -> bool {
    exists|target: Seq<char>, tgid: Seq<char>, tid: Seq<char>, level: Seq<char>, file: Seq<char>|
        spec_is_line_with(line, record, widths, timestamp, target, tgid, tid, level, file)
}

/// Whether `line` is the log line of the record with the given coloured
/// pieces, and each piece is its text, coloured or not.
pub open spec fn spec_is_line_with(
    line: Seq<char>,
    record: Record,
    widths: Widths,
    timestamp: Seq<char>,
    target: Seq<char>,
    tgid: Seq<char>,
    tid: Seq<char>,
    level: Seq<char>,
    file: Seq<char>,
) -> bool {
    &&& spec_is_painted(
        target,
        record.target@ + spec_spaces(spec_fill(record.target@.len(), widths.target as nat)),
    )
    &&& spec_is_painted(
        tgid,
        spec_hex(record.tgid as nat) + spec_spaces(
            spec_fill(spec_hex(record.tgid as nat).len(), widths.tgid as nat),
        ),
    )
    &&& spec_is_painted(
        tid,
        spec_spaces(spec_fill(spec_hex(record.tid as nat).len(), widths.tid as nat)) + spec_hex(
            record.tid as nat,
        ),
    )
    &&& spec_is_painted(
        level,
        record.level.spec_name() + spec_spaces(spec_fill(record.level.spec_name().len(), 5)),
    )
    &&& spec_is_painted(file, spec_file(record))
    &&& line == spec_line(
        timestamp,
        target,
        tgid,
        tid,
        level,
        if record.level == Level::Trace {
            Some((file, spec_line_number(record)))
        } else {
            None
        },
        record.args@,
    )
}

/// The source file that a record is shown with.
pub open spec fn spec_file(record: Record) -> Seq<char> {
    match record.file {
        Some(f) => f@,
        None => "file unknown"@,
    }
}

/// The line of the source file that a record is shown with.
pub open spec fn spec_line_number(record: Record) -> u32 {
    match record.line {
        Some(n) => n,
        None => 0,
    }
}

/// The widths of the columns after a record has been shown: no column is
/// narrower than the record's entry.
pub open spec fn spec_widths_after(widths: Widths, record: Record) -> Widths {
    Widths {
        target: spec_max(widths.target, record.target.spec_bytes().len() as usize),
        tgid: spec_max(widths.tgid, spec_num_hex_digits(record.tgid as nat) as usize),
        tid: spec_max(widths.tid, spec_num_hex_digits(record.tid as nat) as usize),
    }
}

/// Returns the larger of two widths.
fn max_width(a: usize, b: usize) -> (m: usize)
    ensures
        m == spec_max(a, b),
{
    if a >= b {
        a
    } else {
        b
    }
}

/// Writes a record as a line of the console output, given the time of day
/// as a text. The columns grow to take the record's entries.
pub fn format_at(record: &Record, timestamp: &str, widths: &mut Widths) -> (line: String)
    ensures
        *final(widths) == spec_widths_after(*old(widths), *record),
        spec_is_line_of(line@, *record, *final(widths), timestamp@),
{
    widths.target = max_width(widths.target, record.target.as_bytes().len());
    widths.tgid = max_width(widths.tgid, num_hex_digits(record.tgid));
    widths.tid = max_width(widths.tid, num_hex_digits(record.tid));

    let target_text = pad_right(record.target, widths.target);
    let target = paint(target_text.as_str(), Color::Color256(color_of_bytes(record.target.as_bytes())));
    let tgid_hex = hex(record.tgid);
    let tgid_text = pad_right(tgid_hex.as_str(), widths.tgid);
    let tgid = paint(tgid_text.as_str(), Color::Color256(color_of_number(record.tgid as u64)));
    let tid_hex = hex(record.tid);
    let tid_text = pad_left(tid_hex.as_str(), widths.tid);
    let tid = paint(tid_text.as_str(), Color::Color256(color_of_number(record.tid as u64)));
    let level_text = pad_right(record.level.name(), 5);
    let level = paint_bold(level_text.as_str(), record.level.color());
    let file_text = match record.file {
        Some(f) => f,
        None => "file unknown",
    };
    let file = paint(file_text, Color::Color256(color_of_bytes(file_text.as_bytes())));
    let number = match record.line {
        Some(n) => n,
        None => 0,
    };
    let location = match record.level {
        Level::Trace => Some((file.as_str(), number)),
        _ => None,
    };
    let parts = LineParts {
        timestamp,
        target: target.as_str(),
        tgid: tgid.as_str(),
        tid: tid.as_str(),
        level: level.as_str(),
        location,
        message: record.args,
    };
    let line = parts.assemble();
    proof {
        assert(parts.spec_location() == if record.level == Level::Trace {
            Some((file@, spec_line_number(*record)))
        } else {
            None::<(Seq<char>, u32)>
        });
        assert(spec_is_line_with(
            line@,
            *record,
            *widths,
            timestamp@,
            target@,
            tgid@,
            tid@,
            level@,
            file@,
        ));
    }
    line
}

/// Writes a record as a line of the console output. The time of day is
/// written in UTC, as hours, minutes, seconds and milliseconds. Where the
/// time of the record cannot be written, there is no line, and the columns
/// stay as they are.
pub fn format(record: &Record, widths: &mut Widths) -> (line: Option<String>)
    ensures
        match spec_time_of_day(record.timestamp) {
            Some(timestamp) => line is Some && *final(widths) == spec_widths_after(
                *old(widths),
                *record,
            ) && spec_is_line_of(line->Some_0@, *record, *final(widths), timestamp),
            None => line is None && *final(widths) == *old(widths),
        },
{
    if record.timestamp.nanos > i128::MAX as u128 {
        return None;
    }
    match format_unix_nanos(record.timestamp.nanos as i128, TIMESTAMP_FORMAT) {
        Some(timestamp) => Some(format_at(record, timestamp.as_str(), widths)),
        None => None,
    }
}

/// The time of day of a system time as the console output shows it; nothing
/// where it cannot be written.
pub open spec fn spec_time_of_day(t: SystemTime) -> Option<Seq<char>> {
    if t.nanos > i128::MAX {
        None
    } else {
        spec_format_unix_nanos(t.nanos as i128, TIMESTAMP_FORMAT@)
    }
}

/// Writes an owned record as a line of the console output: the line of the
/// record that borrows its texts.
pub fn format_owned(record: &OwnedRecord, widths: &mut Widths) -> (line: Option<String>)
    ensures
        match spec_time_of_day(record.timestamp) {
            Some(timestamp) => line is Some && exists|borrowed: Record|
                #![trigger record.spec_borrowed(borrowed)]
                record.spec_borrowed(borrowed) && *final(widths) == spec_widths_after(
                    *old(widths),
                    borrowed,
                ) && spec_is_line_of(line->Some_0@, borrowed, *final(widths), timestamp),
            None => line is None && *final(widths) == *old(widths),
        },
{
    let borrowed = record.as_record();
    let line = format(&borrowed, widths);
    assert(record.spec_borrowed(borrowed));
    line
}

} // verus!
