//! Readings of the system clock.
use vstd::pervasive::unreached;
use vstd::prelude::*;
use crate::feo_time::duration::Duration;
use crate::feo_time::speed::{spec_scale_elapsed, ClockSpeed};

verus! {

/// A reading of the system clock: nanoseconds since the Unix epoch. A time
/// before the epoch cannot be told.
#[derive(Debug, Clone, Copy, Hash, PartialEq, Eq, PartialOrd, Ord, Structural)]
pub struct SystemTime {
    /// Nanoseconds since 1970-01-01 00:00:00 UTC.
    pub nanos: u128,
}

/// How far a system time lay behind the one it was measured against.
#[derive(Debug, Clone, Copy, PartialEq, Eq, Structural)]
pub struct SystemTimeError(pub Duration);

impl View for SystemTime {
    type V = nat;

    open spec fn view(&self) -> nat {
        self.nanos as nat
    }
}

impl SystemTimeError {
    /// Returns how far forward the second system time was from the first.
    pub fn duration(&self) -> (d: Duration)
        ensures
            d == self.0,
    {
        self.0
    }
}

impl SystemTime {
    /// The Unix epoch, 1970-01-01 00:00:00 UTC.
    pub fn unix_epoch() -> (t: SystemTime)
        ensures
            t@ == 0,
    {
        SystemTime { nanos: 0 }
    }

    /// Whether the scaled system clock can be told at the reading `raw`: with
    /// a factor in force the reading must not lie before the time at which the
    /// factor was set, and the scaled time must be within what can be told.
    pub open spec fn spec_can_tell(speed: ClockSpeed, raw: SystemTime) -> bool {
        speed.factor != 0 ==> raw@ >= speed.start_system@ && Self::spec_now(speed, raw)
            <= u128::MAX
    }

    /// The time that the scaled system clock shows at the reading `raw`: the
    /// time at which the factor was set, plus the scaled time since.
    pub open spec fn spec_now(speed: ClockSpeed, raw: SystemTime) -> nat {
        if speed.factor == 0 {
            raw@
        } else {
            speed.start_system@ + spec_scale_elapsed(
                speed.factor,
                (raw@ - speed.start_system@) as nat,
            )
        }
    }

    /// Returns the time that the scaled system clock shows at the reading
    /// `raw`, or `None` where it cannot be told.
    pub fn checked_now(speed: &ClockSpeed, raw: SystemTime) -> (r: Option<SystemTime>)
        ensures
            Self::spec_can_tell(*speed, raw) ==> r is Some && r->Some_0@ == Self::spec_now(
                *speed,
                raw,
            ),
            !Self::spec_can_tell(*speed, raw) ==> r is None,
    {
        if speed.factor == 0 {
            return Some(raw);
        }
        match raw.duration_since(speed.start_system) {
            Ok(since_start) => match speed.scale_elapsed(since_start) {
                Some(elapsed) => speed.start_system.checked_add(elapsed),
                None => None,
            },
            Err(_) => None,
        }
    }

    /// Returns the time that the scaled system clock shows at the reading
    /// `raw`. With no factor set this is the reading itself.
    pub fn now(speed: &ClockSpeed, raw: SystemTime) -> (r: SystemTime)
        requires
            Self::spec_can_tell(*speed, raw),
        ensures
            r@ == Self::spec_now(*speed, raw),
    {
        match Self::checked_now(speed, raw) {
            Some(r) => r,
            None => unreached(),
        }
    }

    /// Returns the time elapsed from `earlier` to this time. Where `earlier`
    /// is the later of the two, the error tells how far it lies ahead.
    pub fn duration_since(&self, earlier: SystemTime) -> (r: Result<Duration, SystemTimeError>)
        ensures
            self@ >= earlier@ ==> r is Ok && r->Ok_0@ == self@ - earlier@,
            self@ < earlier@ ==> r is Err && r->Err_0.0@ == earlier@ - self@,
    {
        if self.nanos >= earlier.nanos {
            Ok(Duration { nanos: self.nanos - earlier.nanos })
        } else {
            Err(SystemTimeError(Duration { nanos: earlier.nanos - self.nanos }))
        }
    }

    /// Returns the time elapsed from this time to `now`. Where this time is
    /// the later of the two, the error tells how far it lies ahead.
    pub fn elapsed(&self, now: SystemTime) -> (r: Result<Duration, SystemTimeError>)
        ensures
            now@ >= self@ ==> r is Ok && r->Ok_0@ == now@ - self@,
            now@ < self@ ==> r is Err && r->Err_0.0@ == self@ - now@,
    {
        now.duration_since(*self)
    }

    /// Returns the time `duration` after this one, or `None` where it lies
    /// beyond what can be told.
    pub fn checked_add(&self, duration: Duration) -> (r: Option<SystemTime>)
        ensures
            self@ + duration@ <= u128::MAX ==> r is Some && r->Some_0@ == self@ + duration@,
            self@ + duration@ > u128::MAX ==> r is None,
    {
        match self.nanos.checked_add(duration.nanos) {
            Some(n) => Some(SystemTime { nanos: n }),
            None => None,
        }
    }

    /// Returns the time `duration` before this one, or `None` where it lies
    /// before the epoch.
    pub fn checked_sub(&self, duration: Duration) -> (r: Option<SystemTime>)
        ensures
            self@ >= duration@ ==> r is Some && r->Some_0@ == self@ - duration@,
            self@ < duration@ ==> r is None,
    {
        if self.nanos >= duration.nanos {
            Some(SystemTime { nanos: self.nanos - duration.nanos })
        } else {
            None
        }
    }
}

} // verus!
