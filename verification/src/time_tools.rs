//! The time of day for log lines.

use vstd::prelude::*;
use vstd::string::*;
use std::time::{SystemTime, UNIX_EPOCH};
use chrono::DateTime;

verus! {

/// Where the system clock stands relative to the Unix epoch: whole seconds
/// and the nanoseconds of the second that has begun.
#[derive(Debug, Clone, Copy, PartialEq, Eq, Structural)]
pub enum ClockReading {
    /// At the epoch or after it.
    Since { secs: u64, nanos: u32 },
    /// Before the epoch.
    Before { secs: u64, nanos: u32 },
}

/// The text that chrono's `%+` format gives to the instant `secs` seconds
/// and `nanos` nanoseconds after the Unix epoch, in UTC; `None` where
/// `DateTime::from_timestamp` has no such instant.
pub uninterp spec fn iso8601_text(secs: int, nanos: int) -> Option<Seq<char>>;

impl ClockReading {
    /// A reading holds less than a second of nanoseconds.
    pub open spec fn wf(self) -> bool {
        match self {
            ClockReading::Since { nanos, .. } => nanos < 1_000_000_000,
            ClockReading::Before { nanos, .. } => nanos < 1_000_000_000,
        }
    }

    /// The nanoseconds from the epoch to the reading, negative before it.
    pub open spec fn offset(self) -> int {
        match self {
            ClockReading::Since { secs, nanos } => secs * 1_000_000_000 + nanos,
            ClockReading::Before { secs, nanos } => -(secs * 1_000_000_000 + nanos),
        }
    }

    /// The Unix timestamp of the reading: the whole seconds up to it, and
    /// the nanoseconds from there on. `None` where the seconds do not fit,
    /// or the reading is none.
    pub open spec fn unix(self) -> Option<(i64, u32)> {
        let secs = self.offset() / 1_000_000_000;
        let nanos = self.offset() % 1_000_000_000;
        if self.wf() && i64::MIN <= secs <= i64::MAX {
            Some((secs as i64, nanos as u32))
        } else {
            None
        }
    }

    /// The reading as a log line shows it: in ISO 8601, or empty where it
    /// has no Unix timestamp or the instant is beyond the calendar.
    pub open spec fn text(self) -> Seq<char> {
        match self.unix() {
            Some((secs, nanos)) => match iso8601_text(secs as int, nanos as int) {
                Some(text) => text,
                None => Seq::empty(),
            },
            None => Seq::empty(),
        }
    }

    fn is_valid(&self) -> (valid: bool)
        ensures
            valid == self.wf(),
    {
        match *self {
            ClockReading::Since { nanos, .. } => nanos < 1_000_000_000,
            ClockReading::Before { nanos, .. } => nanos < 1_000_000_000,
        }
    }

    /// Computes the Unix timestamp of the reading.
    pub fn unix_timestamp(&self) -> (stamp: Option<(i64, u32)>)
        ensures
            stamp == self.unix(),
            stamp matches Some((_, nanos)) ==> nanos < 1_000_000_000,
    {
        if !self.is_valid() {
            return None;
        }
        match *self {
            ClockReading::Since { secs, nanos } => {
                assert((secs * 1_000_000_000 + nanos) / 1_000_000_000 == secs as int
                    && (secs * 1_000_000_000 + nanos) % 1_000_000_000 == nanos as int)
                    by (nonlinear_arith)
                    requires
                        0 <= nanos < 1_000_000_000,
                ;
                if secs > i64::MAX as u64 {
                    None
                } else {
                    Some((secs as i64, nanos))
                }
            },
            ClockReading::Before { secs, nanos } => {
                if nanos == 0 {
                    assert((-(secs * 1_000_000_000 + 0)) / 1_000_000_000 == -(secs as int)
                        && (-(secs * 1_000_000_000 + 0)) % 1_000_000_000 == 0)
                        by (nonlinear_arith);
                    if secs > i64::MAX as u64 {
                        if secs == i64::MAX as u64 + 1 {
                            Some((i64::MIN, 0))
                        } else {
                            None
                        }
                    } else {
                        Some((-(secs as i64), 0))
                    }
                } else {
                    assert((-(secs * 1_000_000_000 + nanos)) / 1_000_000_000 == -(secs as int) - 1
                        && (-(secs * 1_000_000_000 + nanos)) % 1_000_000_000 == 1_000_000_000
                        - nanos) by (nonlinear_arith)
                        requires
                            0 < nanos < 1_000_000_000,
                    ;
                    if secs > i64::MAX as u64 {
                        None
                    } else {
                        Some((-(secs as i64) - 1, 1_000_000_000 - nanos))
                    }
                }
            },
        }
    }
}

/// `SystemTime::now` read against `UNIX_EPOCH` with `duration_since`, which
/// gives the distance as a `Duration` on either side of the epoch. A
/// `Duration` holds whole seconds and less than a second of nanoseconds.
#[verifier::external_body]
fn read_clock() -> (reading: ClockReading)
    ensures
        reading.wf(),
{
    match SystemTime::now().duration_since(UNIX_EPOCH) {
        Ok(d) => ClockReading::Since { secs: d.as_secs(), nanos: d.subsec_nanos() },
        Err(e) => ClockReading::Before {
            secs: e.duration().as_secs(),
            nanos: e.duration().subsec_nanos(),
        },
    }
}

/// `DateTime::from_timestamp` makes the UTC instant of a Unix timestamp, or
/// `None` where the seconds are out of its range or the nanoseconds are not
/// valid; `format("%+")` writes an instant in ISO 8601 with its offset. The
/// text depends on the two numbers alone, which is all that is claimed here.
#[verifier::external_body]
fn iso8601(secs: i64, nanos: u32) -> (text: Option<String>)
    ensures
        text.deep_view() == iso8601_text(secs as int, nanos as int),
{
    match DateTime::from_timestamp(secs, nanos) {
        Some(instant) => Some(format!("{}", instant.format("%+"))),
        None => None,
    }
}

/// Writes a clock reading as a log line shows it.
pub fn timestamp(reading: ClockReading) -> (text: String)
    ensures
        text@ == reading.text(),
{
    match reading.unix_timestamp() {
        Some((secs, nanos)) => match iso8601(secs, nanos) {
            Some(text) => text,
            None => String::new(),
        },
        None => String::new(),
    }
}

/// The current time as a log line shows it.
pub fn now_as_string() -> (text: String)
    ensures
        exists|reading: ClockReading| reading.wf() && text@ == #[trigger] reading.text(),
{
    let reading = read_clock();
    timestamp(reading)
}

} // verus!
