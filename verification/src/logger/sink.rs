//! The logger and its two sinks: the console and the log daemon.
use vstd::prelude::*;
use vstd::string::StringSliceAdditionalSpecFns;
use crate::error::{Error, IoErrorKind};
use crate::logger::codec::{spec_encode, spec_file_bytes, spec_secs, MAX_RECORD_SIZE};
use crate::logger::fmt::{spec_is_line_of, spec_time_of_day, spec_widths_after, Widths};
use crate::logger::record::Record;

verus! {

/// The console: records are shown as lines, in columns that grow with the
/// widest entry.
#[derive(Debug, Clone, Copy, PartialEq, Eq, Structural)]
pub struct Console {
    /// The widths of the columns.
    pub widths: Widths,
}

/// The connection to the log daemon: records are sent encoded, one record to
/// a packet.
#[derive(Debug, Clone, Copy, PartialEq, Eq, Structural)]
pub struct Logd;

/// The logger.
#[derive(Debug, Clone, Copy, PartialEq, Eq, Structural)]
pub struct Logger {
    /// The console, where records are shown there.
    pub console: Option<Console>,
    /// The log daemon, where records are sent there.
    pub logd: Option<Logd>,
}

/// What is to be done with a record.
pub struct LogOutput {
    /// The line to print on the console, where there is one.
    pub line: Option<String>,
    /// The packet to send to the log daemon, where there is one.
    pub packet: Option<Vec<u8>>,
}

/// Whether a record fits a packet to the log daemon: its time is within what
/// the encoding tells, and its encoding is no longer than the largest packet.
pub open spec fn spec_fits_packet(record: Record) -> bool {
    &&& spec_secs(record.timestamp) <= u64::MAX
    &&& 37 + record.target.spec_bytes().len() + spec_file_bytes(record).len()
        + record.args.spec_bytes().len() <= MAX_RECORD_SIZE
}

impl Default for Console {
    fn default() -> (c: Self)
        ensures
            c.widths == (Widths { target: 16, tgid: 4, tid: 4 }),
    {
        Console { widths: Widths::new() }
    }
}

impl Console {
    /// Writes a record for the console: the line to print, or nothing where
    /// the time of the record cannot be written.
    pub fn write(&mut self, record: &Record) -> (line: Option<String>)
        ensures
            match spec_time_of_day(record.timestamp) {
                Some(timestamp) => line is Some && final(self).widths == spec_widths_after(
                    old(self).widths,
                    *record,
                ) && spec_is_line_of(line->Some_0@, *record, final(self).widths, timestamp),
                None => line is None && final(self).widths == old(self).widths,
            },
    {
        crate::logger::fmt::format(record, &mut self.widths)
    }
}

impl Logd {
    /// Writes a record for the log daemon: the packet to send. A record that
    /// does not fit a packet is rejected as invalid input.
    pub fn write(&self, record: &Record) -> (r: Result<Vec<u8>, Error>)
        ensures
            spec_fits_packet(*record) ==> r is Ok && r->Ok_0@ == spec_encode(*record),
            !spec_fits_packet(*record) ==> r is Err && r->Err_0.is_io(
                IoErrorKind::InvalidInput,
                "record too large to encode"@,
            ),
    {
        let file_len = match record.file {
            Some(f) => f.as_bytes().len(),
            None => 0,
        };
        let room = MAX_RECORD_SIZE - 37;
        let target_len = record.target.as_bytes().len();
        let args_len = record.args.as_bytes().len();
        if record.timestamp.nanos / 1_000_000_000 > u64::MAX as u128 || target_len > room
            || file_len > room - target_len || args_len > room - target_len - file_len {
            return Err(Error::Io((IoErrorKind::InvalidInput, "record too large to encode")));
        }
        Ok(record.encode())
    }
}

impl Logger {
    /// Creates a new logger that shows records on the console, sends them to
    /// the log daemon, does both or neither.
    pub fn new(console: bool, logd: bool) -> (l: Logger)
        ensures
            l.console is Some <==> console,
            l.logd is Some <==> logd,
            console ==> l.console->Some_0.widths == (Widths { target: 16, tgid: 4, tid: 4 }),
    {
        Logger {
            console: if console {
                Some(Console::default())
            } else {
                None
            },
            logd: if logd {
                Some(Logd)
            } else {
                None
            },
        }
    }

    /// Logs a record: says what is to be printed on the console and what is
    /// to be sent to the log daemon. A record that does not fit a packet is
    /// not sent, and nothing is made of it.
    pub fn log(&mut self, record: &Record) -> (out: LogOutput)
        ensures
            final(self).logd == old(self).logd,
            final(self).console is Some <==> old(self).console is Some,
            out.line is Some <==> old(self).console is Some && spec_time_of_day(record.timestamp)
                is Some,
            out.line is Some ==> spec_is_line_of(
                out.line->Some_0@,
                *record,
                final(self).console->Some_0.widths,
                spec_time_of_day(record.timestamp)->Some_0,
            ),
            out.packet is Some <==> old(self).logd is Some && spec_fits_packet(*record),
            out.packet is Some ==> out.packet->Some_0@ == spec_encode(*record),
    {
        let line = match self.console {
            Some(mut console) => {
                let line = console.write(record);
                self.console = Some(console);
                line
            },
            None => None,
        };
        let packet = match self.logd {
            Some(logd) => match logd.write(record) {
                Ok(packet) => Some(packet),
                Err(_) => None,
            },
            None => None,
        };
        LogOutput { line, packet }
    }
}

} // verus!
