//! The speed factor: one signed number, set at most once, that scales the
//! monotonic clock and the system clock alike.
//!
//! A positive factor lets time pass that many times faster, a negative one
//! that many times slower, both counted from the instants at which the factor
//! was set. A factor of zero leaves the clocks as they are.
use vstd::pervasive::unreached;
use vstd::prelude::*;
use crate::feo_time::duration::Duration;
use crate::feo_time::instant::Instant;
use crate::feo_time::system_time::SystemTime;

verus! {

/// The speed factor and the instants from which it counts.
#[derive(Debug, Clone, Copy)]
pub struct ClockSpeed {
    /// The factor; zero while none is in force.
    pub factor: i32,
    /// The system time at which the factor was set.
    pub start_system: SystemTime,
    /// The instant at which the factor was set.
    pub start_instant: Instant,
    /// Whether a factor was set.
    pub set: bool,
}

/// An elapsed time as the scaled clocks tell it: multiplied by a positive
/// factor, divided by the magnitude of a negative one, left alone by zero.
pub open spec fn spec_scale_elapsed(factor: i32, elapsed: nat) -> nat {
    if factor > 0 {
        elapsed * (factor as nat)
    } else if factor < 0 {
        elapsed / ((-factor) as nat)
    } else {
        elapsed
    }
}

/// A span of scaled time as the real clocks must let pass for it: divided by a
/// positive factor, multiplied by the magnitude of a negative one, left alone
/// by zero.
pub open spec fn spec_scale_sleep(factor: i32, span: nat) -> nat {
    if factor > 0 {
        span / (factor as nat)
    } else if factor < 0 {
        span * ((-factor) as nat)
    } else {
        span
    }
}

/// The magnitude of a factor.
pub fn magnitude(factor: i32) -> (m: u32)
    ensures
        factor >= 0 ==> m == factor,
        factor < 0 ==> m == -factor,
{
    if factor >= 0 {
        factor as u32
    } else {
        (-(factor as i64)) as u32
    }
}

impl ClockSpeed {
    /// The clocks as they are: no factor set.
    pub fn new() -> (speed: ClockSpeed)
        ensures
            speed.factor == 0,
            !speed.set,
    {
        ClockSpeed {
            factor: 0,
            start_system: SystemTime { nanos: 0 },
            start_instant: Instant { nanos: 0 },
            set: false,
        }
    }

    /// The elapsed time `elapsed` as the scaled clocks tell it, or `None`
    /// where that is more than can be told.
    pub fn scale_elapsed(&self, elapsed: Duration) -> (r: Option<Duration>)
        ensures
            spec_scale_elapsed(self.factor, elapsed@) <= u128::MAX ==> r is Some && r->Some_0@
                == spec_scale_elapsed(self.factor, elapsed@),
            spec_scale_elapsed(self.factor, elapsed@) > u128::MAX ==> r is None,
    {
        if self.factor > 0 {
            elapsed.checked_mul(magnitude(self.factor))
        } else if self.factor < 0 {
            elapsed.checked_div(magnitude(self.factor))
        } else {
            Some(elapsed)
        }
    }

    /// The span of scaled time `span` as the real clocks must let pass for it,
    /// or `None` where that is more than can be told.
    pub fn scale_sleep(&self, span: Duration) -> (r: Option<Duration>)
        ensures
            spec_scale_sleep(self.factor, span@) <= u128::MAX ==> r is Some && r->Some_0@
                == spec_scale_sleep(self.factor, span@),
            spec_scale_sleep(self.factor, span@) > u128::MAX ==> r is None,
    {
        if self.factor > 0 {
            span.checked_div(magnitude(self.factor))
        } else if self.factor < 0 {
            span.checked_mul(magnitude(self.factor))
        } else {
            Some(span)
        }
    }
}

/// Values that can be converted from scaled time to the real time that the
/// unscaled clocks must let pass for them, as a sleep needs it: with a positive
/// factor the value is shortened, with a negative one it is lengthened.
pub trait Scaled: Sized {
    /// Whether the converted value can be told.
    spec fn spec_can_scale(&self, speed: ClockSpeed) -> bool;

    /// The converted value.
    spec fn spec_scaled(&self, speed: ClockSpeed) -> Self;

    /// Converts the value under the given speed factor.
    fn scaled(&self, speed: &ClockSpeed) -> (r: Self)
        requires
            self.spec_can_scale(*speed),
        ensures
            r == self.spec_scaled(*speed),
    ;
}

impl Scaled for Duration {
    open spec fn spec_can_scale(&self, speed: ClockSpeed) -> bool {
        spec_scale_sleep(speed.factor, self@) <= u128::MAX
    }

    open spec fn spec_scaled(&self, speed: ClockSpeed) -> Duration {
        Duration { nanos: spec_scale_sleep(speed.factor, self@) as u128 }
    }

    fn scaled(&self, speed: &ClockSpeed) -> (r: Duration) {
        match speed.scale_sleep(*self) {
            Some(d) => d,
            None => unreached(),
        }
    }
}

/// Sets the speed factor, counting from the given readings of the two clocks.
/// The factor can be set only once.
pub fn speed(clock: &mut ClockSpeed, factor: i32, now_system: SystemTime, now_instant: Instant)
    requires
        !old(clock).set,
    ensures
        final(clock).set,
        final(clock).factor == factor,
        final(clock).start_system == now_system,
        final(clock).start_instant == now_instant,
{
    clock.set = true;
    clock.start_system = now_system;
    clock.start_instant = now_instant;
    clock.factor = factor;
}

/// Returns the speed factor in force, or `None` where there is none.
pub fn get_speed(clock: &ClockSpeed) -> (r: Option<i32>)
    ensures
        clock.factor != 0 ==> r == Some(clock.factor),
        clock.factor == 0 ==> r is None,
{
    if clock.factor != 0 {
        Some(clock.factor)
    } else {
        None
    }
}

} // verus!
