//! Spans of time, counted in nanoseconds.
use vstd::prelude::*;

verus! {

/// The number of nanoseconds in a second.
pub const NANOS_PER_SEC: u128 = 1_000_000_000;

/// The number of nanoseconds in a millisecond.
pub const NANOS_PER_MILLI: u128 = 1_000_000;

/// The number of nanoseconds in a microsecond.
pub const NANOS_PER_MICRO: u128 = 1_000;

/// A span of time: a number of nanoseconds.
#[derive(Debug, Clone, Copy, Hash, PartialEq, Eq, PartialOrd, Ord, Structural)]
pub struct Duration {
    /// The length of the span in nanoseconds.
    pub nanos: u128,
}

impl View for Duration {
    type V = nat;

    open spec fn view(&self) -> nat {
        self.nanos as nat
    }
}

impl Duration {
    /// The empty span.
    pub fn zero() -> (d: Duration)
        ensures
            d@ == 0,
    {
        Duration { nanos: 0 }
    }

    /// The longest span that can be told.
    pub fn max() -> (d: Duration)
        ensures
            d@ == u128::MAX,
    {
        Duration { nanos: u128::MAX }
    }

    /// The span of the given number of nanoseconds.
    pub fn from_nanos(nanos: u64) -> (d: Duration)
        ensures
            d@ == nanos,
    {
        Duration { nanos: nanos as u128 }
    }

    /// The span of the given number of microseconds.
    pub fn from_micros(micros: u64) -> (d: Duration)
        ensures
            d@ == micros * 1_000,
    {
        Duration { nanos: micros as u128 * NANOS_PER_MICRO }
    }

    /// The span of the given number of milliseconds.
    pub fn from_millis(millis: u64) -> (d: Duration)
        ensures
            d@ == millis * 1_000_000,
    {
        Duration { nanos: millis as u128 * NANOS_PER_MILLI }
    }

    /// The span of the given number of seconds.
    pub fn from_secs(secs: u64) -> (d: Duration)
        ensures
            d@ == secs * 1_000_000_000,
    {
        Duration { nanos: secs as u128 * NANOS_PER_SEC }
    }

    /// The span of whole seconds and additional nanoseconds.
    pub fn new(secs: u64, nanos: u32) -> (d: Duration)
        ensures
            d@ == secs * 1_000_000_000 + nanos,
    {
        Duration { nanos: secs as u128 * NANOS_PER_SEC + nanos as u128 }
    }

    /// The length of the span in nanoseconds.
    pub fn as_nanos(&self) -> (n: u128)
        ensures
            n == self@,
    {
        self.nanos
    }

    /// The whole seconds of the span.
    pub fn as_secs(&self) -> (s: u128)
        ensures
            s == self@ / 1_000_000_000,
    {
        self.nanos / NANOS_PER_SEC
    }

    /// The nanoseconds of the span beyond its whole seconds.
    pub fn subsec_nanos(&self) -> (n: u32)
        ensures
            n == self@ % 1_000_000_000,
    {
        (self.nanos % NANOS_PER_SEC) as u32
    }

    /// Whether the span is empty.
    pub fn is_zero(&self) -> (b: bool)
        ensures
            b == (self@ == 0),
    {
        self.nanos == 0
    }

    /// The sum of two spans, or `None` where it cannot be told.
    pub fn checked_add(&self, rhs: Duration) -> (r: Option<Duration>)
        ensures
            self@ + rhs@ <= u128::MAX ==> r is Some && r->Some_0@ == self@ + rhs@,
            self@ + rhs@ > u128::MAX ==> r is None,
    {
        match self.nanos.checked_add(rhs.nanos) {
            Some(n) => Some(Duration { nanos: n }),
            None => None,
        }
    }

    /// The difference of two spans, or `None` where `rhs` is the longer.
    pub fn checked_sub(&self, rhs: Duration) -> (r: Option<Duration>)
        ensures
            self@ >= rhs@ ==> r is Some && r->Some_0@ == self@ - rhs@,
            self@ < rhs@ ==> r is None,
    {
        if self.nanos >= rhs.nanos {
            Some(Duration { nanos: self.nanos - rhs.nanos })
        } else {
            None
        }
    }

    /// The difference of two spans, or the empty span where `rhs` is the
    /// longer.
    pub fn saturating_sub(&self, rhs: Duration) -> (d: Duration)
        ensures
            self@ >= rhs@ ==> d@ == self@ - rhs@,
            self@ < rhs@ ==> d@ == 0,
    {
        if self.nanos >= rhs.nanos {
            Duration { nanos: self.nanos - rhs.nanos }
        } else {
            Duration { nanos: 0 }
        }
    }

    /// The span taken `rhs` times, or `None` where it cannot be told.
    pub fn checked_mul(&self, rhs: u32) -> (r: Option<Duration>)
        ensures
            self@ * rhs <= u128::MAX ==> r is Some && r->Some_0@ == self@ * rhs,
            self@ * rhs > u128::MAX ==> r is None,
    {
        match self.nanos.checked_mul(rhs as u128) {
            Some(n) => Some(Duration { nanos: n }),
            None => None,
        }
    }

    /// The `rhs`-th part of the span, rounded down, or `None` where `rhs` is
    /// zero.
    pub fn checked_div(&self, rhs: u32) -> (r: Option<Duration>)
        ensures
            rhs != 0 ==> r is Some && r->Some_0@ == self@ / (rhs as nat),
            rhs == 0 ==> r is None,
    {
        if rhs == 0 {
            None
        } else {
            Some(Duration { nanos: self.nanos / (rhs as u128) })
        }
    }
}

} // verus!
