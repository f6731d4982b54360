//! Instants of the monotonic clock.
use vstd::pervasive::unreached;
use vstd::prelude::*;
use crate::feo_time::duration::Duration;
use crate::feo_time::speed::{spec_scale_elapsed, ClockSpeed};

verus! {

/// A reading of the monotonic clock: nanoseconds since the clock's origin.
#[derive(Debug, Clone, Copy, Hash, PartialEq, Eq, PartialOrd, Ord, Structural)]
pub struct Instant {
    /// Nanoseconds since the origin of the monotonic clock.
    pub nanos: u128,
}

impl View for Instant {
    type V = nat;

    open spec fn view(&self) -> nat {
        self.nanos as nat
    }
}

/// The time from `earlier` to `later`, or nothing where `earlier` is the
/// later of the two.
pub open spec fn spec_saturating_since(later: nat, earlier: nat) -> nat {
    if later >= earlier {
        (later - earlier) as nat
    } else {
        0
    }
}

impl Instant {
    /// The instant that the scaled clock shows at the reading `raw`: the
    /// instant at which the factor was set, plus the scaled time since.
    pub open spec fn spec_now(speed: ClockSpeed, raw: Instant) -> nat {
        if speed.factor == 0 {
            raw@
        } else {
            speed.start_instant@ + spec_scale_elapsed(
                speed.factor,
                spec_saturating_since(raw@, speed.start_instant@),
            )
        }
    }

    /// Returns the instant that the scaled clock shows at the reading `raw`,
    /// or `None` where it lies beyond what can be told.
    pub fn checked_now(speed: &ClockSpeed, raw: Instant) -> (r: Option<Instant>)
        ensures
            Self::spec_now(*speed, raw) <= u128::MAX ==> r is Some && r->Some_0@ == Self::spec_now(
                *speed,
                raw,
            ),
            Self::spec_now(*speed, raw) > u128::MAX ==> r is None,
    {
        if speed.factor == 0 {
            return Some(raw);
        }
        let since_start = raw.duration_since(speed.start_instant);
        match speed.scale_elapsed(since_start) {
            Some(elapsed) => speed.start_instant.checked_add(elapsed),
            None => None,
        }
    }

    /// Returns the instant that the scaled clock shows at the reading `raw`.
    /// With no factor set this is the reading itself.
    pub fn now(speed: &ClockSpeed, raw: Instant) -> (r: Instant)
        requires
            Self::spec_now(*speed, raw) <= u128::MAX,
        ensures
            r@ == Self::spec_now(*speed, raw),
    {
        match Self::checked_now(speed, raw) {
            Some(r) => r,
            None => unreached(),
        }
    }

    /// Returns the time elapsed from `earlier` to this instant, or the empty
    /// span if `earlier` is later than this one.
    pub fn duration_since(&self, earlier: Instant) -> (d: Duration)
        ensures
            d@ == spec_saturating_since(self@, earlier@),
    {
        match self.checked_duration_since(earlier) {
            Some(d) => d,
            None => Duration::zero(),
        }
    }

    /// Returns the time elapsed from `earlier` to this instant, or `None` if
    /// `earlier` is later than this one.
    pub fn checked_duration_since(&self, earlier: Instant) -> (r: Option<Duration>)
        ensures
            self@ >= earlier@ ==> r is Some && r->Some_0@ == self@ - earlier@,
            self@ < earlier@ ==> r is None,
    {
        if self.nanos >= earlier.nanos {
            Some(Duration { nanos: self.nanos - earlier.nanos })
        } else {
            None
        }
    }

    /// Returns the time elapsed from `earlier` to this instant, or the empty
    /// span if `earlier` is later than this one.
    pub fn saturating_duration_since(&self, earlier: Instant) -> (d: Duration)
        ensures
            d@ == spec_saturating_since(self@, earlier@),
    {
        match self.checked_duration_since(earlier) {
            Some(d) => d,
            None => Duration::zero(),
        }
    }

    /// Returns the time elapsed from this instant to `now`, or the empty span
    /// if this instant is the later one.
    pub fn elapsed(&self, now: Instant) -> (d: Duration)
        ensures
            d@ == spec_saturating_since(now@, self@),
    {
        now.duration_since(*self)
    }

    /// Returns the instant `duration` after this one, or `None` where it lies
    /// beyond what can be told.
    pub fn checked_add(&self, duration: Duration) -> (r: Option<Instant>)
        ensures
            self@ + duration@ <= u128::MAX ==> r is Some && r->Some_0@ == self@ + duration@,
            self@ + duration@ > u128::MAX ==> r is None,
    {
        match self.nanos.checked_add(duration.nanos) {
            Some(n) => Some(Instant { nanos: n }),
            None => None,
        }
    }

    /// Returns the instant `duration` before this one, or `None` where it lies
    /// before the clock's origin.
    pub fn checked_sub(&self, duration: Duration) -> (r: Option<Instant>)
        ensures
            self@ >= duration@ ==> r is Some && r->Some_0@ == self@ - duration@,
            self@ < duration@ ==> r is None,
    {
        if self.nanos >= duration.nanos {
            Some(Instant { nanos: self.nanos - duration.nanos })
        } else {
            None
        }
    }
}

} // verus!
