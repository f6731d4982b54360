//! Time stamps of the shared time base.
//!
//! Every agent measures time as nanoseconds since the instant at which the
//! primary agent started. The primary hands that instant out as a `SyncInfo`,
//! nanoseconds since the Unix epoch, so that stamps of different agents can be
//! compared.
use vstd::pervasive::unreached;
use vstd::prelude::*;
use vstd::std_specs::convert::FromSpecImpl;
use crate::feo_time::instant::{spec_saturating_since, Instant};
use crate::feo_time::speed::{spec_scale_elapsed, ClockSpeed};
use crate::feo_time::system_time::SystemTime;

verus! {

/// Nanoseconds since system startup, on the scaled monotonic clock.
#[derive(Debug, Clone, Copy, Hash, PartialEq, Eq, Structural)]
pub struct Timestamp(pub u64);

/// The wall-clock instant of the primary's startup, in nanoseconds since the
/// Unix epoch.
#[derive(Debug, Clone, Copy, Hash, PartialEq, Eq, Structural)]
pub struct SyncInfo {
    pub since_epoch: u64,
}

impl Timestamp {
    /// The stamp as a number of nanoseconds.
    pub fn as_nanos(&self) -> (n: u64)
        ensures
            n == self.0,
    {
        self.0
    }
}

impl SyncInfo {
    /// The startup instant as a number of nanoseconds since the Unix epoch.
    pub fn as_nanos(&self) -> (n: u64)
        ensures
            n == self.since_epoch,
    {
        self.since_epoch
    }
}

impl From<u64> for Timestamp {
    fn from(nanos: u64) -> (t: Self) {
        Timestamp(nanos)
    }
}

impl FromSpecImpl<u64> for Timestamp {
    open spec fn obeys_from_spec() -> bool {
        true
    }

    open spec fn from_spec(nanos: u64) -> Self {
        Timestamp(nanos)
    }
}

impl From<Timestamp> for u64 {
    fn from(tstamp: Timestamp) -> (n: Self) {
        tstamp.0
    }
}

impl FromSpecImpl<Timestamp> for u64 {
    open spec fn obeys_from_spec() -> bool {
        true
    }

    open spec fn from_spec(tstamp: Timestamp) -> Self {
        tstamp.0
    }
}

impl From<u64> for SyncInfo {
    fn from(nanos: u64) -> (s: Self) {
        SyncInfo { since_epoch: nanos }
    }
}

impl FromSpecImpl<u64> for SyncInfo {
    open spec fn obeys_from_spec() -> bool {
        true
    }

    open spec fn from_spec(nanos: u64) -> Self {
        SyncInfo { since_epoch: nanos }
    }
}

impl From<SyncInfo> for u64 {
    fn from(info: SyncInfo) -> (n: Self) {
        info.since_epoch
    }
}

impl FromSpecImpl<SyncInfo> for u64 {
    open spec fn obeys_from_spec() -> bool {
        true
    }

    open spec fn from_spec(info: SyncInfo) -> Self {
        info.since_epoch
    }
}

} // verus!

verus! {

/// One reading of both clocks, taken at what is held to be the same moment.
#[derive(Debug, Clone, Copy, PartialEq, Eq, Structural)]
pub struct TimeInfo {
    /// The reading of the system clock.
    pub systime: SystemTime,
    /// The reading of the monotonic clock.
    pub instant: Instant,
}

/// An attempt at reading both clocks together: the monotonic clock, then the
/// system clock, then the monotonic clock again.
#[derive(Debug, Clone, Copy, PartialEq, Eq, Structural)]
pub struct ClockSample {
    /// The monotonic clock before the system clock was read.
    pub instant: Instant,
    /// The system clock.
    pub systime: SystemTime,
    /// The monotonic clock after the system clock was read.
    pub instant2: Instant,
}

/// The time base of a process: the startup time of the system on both clocks,
/// set exactly once.
#[derive(Debug, Clone, Copy)]
pub struct TimeBase {
    /// The startup time; `None` until the time base is initialized.
    pub startup: Option<TimeInfo>,
}

/// The longest time, in nanoseconds, that may pass between the two readings of
/// the monotonic clock for a sample to count as one moment; a sample that
/// takes this long is not accepted.
pub const MAX_DELAY_NANOS: u128 = 100;

/// The number of samples that are looked at before giving up.
pub const MAX_TRIES: usize = 10;

impl ClockSample {
    /// Whether the two readings of the monotonic clock lie close enough
    /// together.
    pub open spec fn spec_accepted(&self) -> bool {
        spec_saturating_since(self.instant2@, self.instant@) < MAX_DELAY_NANOS
    }

    /// Returns whether the two readings of the monotonic clock lie close
    /// enough together.
    #[verifier::when_used_as_spec(spec_accepted)]
    pub fn accepted(&self) -> (b: bool)
        ensures
            b == self.spec_accepted(),
    {
        self.instant2.saturating_duration_since(self.instant).as_nanos() < MAX_DELAY_NANOS
    }

    /// The reading that an accepted sample stands for: the system clock and
    /// the first reading of the monotonic clock.
    pub open spec fn info(&self) -> TimeInfo {
        TimeInfo { systime: self.systime, instant: self.instant }
    }
}

/// The reading taken from a run of samples: that of the first accepted sample
/// among the first `tries`.
pub open spec fn spec_pick(samples: Seq<ClockSample>, tries: nat) -> Option<TimeInfo>
    decreases samples.len(),
{
    if tries == 0 || samples.len() == 0 {
        None
    } else if samples[0].spec_accepted() {
        Some(samples[0].info())
    } else {
        spec_pick(samples.drop_first(), (tries - 1) as nat)
    }
}

/// Picks the reading of both clocks from a run of samples: the first sample
/// whose two monotonic readings lie less than the maximal delay apart. No more
/// than the first ten samples are looked at; where none of them is accepted,
/// there is no reading.
pub fn time_info_now(samples: &Vec<ClockSample>) -> (r: Option<TimeInfo>)
    ensures
        r == spec_pick(samples@, MAX_TRIES as nat),
{
    let mut i: usize = 0;
    assert(samples@.skip(0) =~= samples@);
    while i < samples.len() && i < MAX_TRIES
        invariant
            i <= samples@.len(),
            i <= MAX_TRIES,
            spec_pick(samples@, MAX_TRIES as nat) == spec_pick(
                samples@.skip(i as int),
                (MAX_TRIES - i) as nat,
            ),
        decreases samples@.len() - i,
    {
        let sample = samples[i];
        assert(samples@.skip(i as int)[0] == sample);
        if sample.accepted() {
            return Some(TimeInfo { systime: sample.systime, instant: sample.instant });
        }
        assert(samples@.skip(i as int).drop_first() =~= samples@.skip(i + 1));
        i += 1;
    }
    None
}

impl TimeInfo {
    /// The startup time that a peer derives from the primary's startup time
    /// and its own reading `now`: on the system clock the primary's startup
    /// time itself, on the monotonic clock the instant that lies as far before
    /// `now` as the startup lies before it on the system clock. There is none
    /// where the startup lies after `now` on the system clock, or before the
    /// origin of the monotonic clock.
    pub open spec fn spec_from_sync(sync_info: SyncInfo, now: TimeInfo) -> Option<TimeInfo> {
        if now.systime@ >= sync_info.since_epoch && now.instant@ >= now.systime@
            - sync_info.since_epoch {
            Some(
                TimeInfo {
                    systime: SystemTime { nanos: sync_info.since_epoch as u128 },
                    instant: Instant {
                        nanos: (now.instant@ - (now.systime@ - sync_info.since_epoch)) as u128,
                    },
                },
            )
        } else {
            None
        }
    }

    /// Derives the startup time from the primary's startup time and the local
    /// reading `now`.
    pub fn from_sync(sync_info: SyncInfo, now: TimeInfo) -> (r: Option<TimeInfo>)
        ensures
            r == Self::spec_from_sync(sync_info, now),
    {
        let startup_time = SystemTime { nanos: sync_info.since_epoch as u128 };
        match now.systime.duration_since(startup_time) {
            Ok(elapsed_since_startup) => match now.instant.checked_sub(elapsed_since_startup) {
                Some(startup_instant) => Some(
                    TimeInfo { systime: startup_time, instant: startup_instant },
                ),
                None => None,
            },
            Err(_) => None,
        }
    }
}

impl TimeBase {
    /// A time base that is not yet initialized.
    pub fn new() -> (base: TimeBase)
        ensures
            base.startup is None,
    {
        TimeBase { startup: None }
    }

    /// Whether the time base has been initialized.
    pub fn is_initialized(&self) -> (b: bool)
        ensures
            b == self.startup is Some,
    {
        self.startup.is_some()
    }

    /// The time stamp at the reading `now` of the monotonic clock: the time
    /// elapsed since the startup instant, scaled by the speed factor.
    pub open spec fn spec_timestamp(&self, speed: ClockSpeed, now: Instant) -> nat {
        spec_scale_elapsed(
            speed.factor,
            spec_saturating_since(now@, self.startup->Some_0.instant@),
        )
    }

    /// Returns the time stamp at the reading `now`, or `None` where the count
    /// of nanoseconds is beyond what a time stamp holds.
    pub fn checked_timestamp(&self, speed: &ClockSpeed, now: Instant) -> (r: Option<Timestamp>)
        requires
            self.startup is Some,
        ensures
            self.spec_timestamp(*speed, now) <= u64::MAX ==> r == Some(
                Timestamp(self.spec_timestamp(*speed, now) as u64),
            ),
            self.spec_timestamp(*speed, now) > u64::MAX ==> r is None,
    {
        let real_duration = now.duration_since(startup_instant(self));
        match speed.scale_elapsed(real_duration) {
            Some(d) => {
                if d.as_nanos() <= u64::MAX as u128 {
                    Some(Timestamp(d.as_nanos() as u64))
                } else {
                    None
                }
            },
            None => None,
        }
    }
}

/// Initializes the time base of the primary agent with the reading `now`.
/// The time base can be initialized only once.
pub fn initialize(base: &mut TimeBase, now: TimeInfo)
    requires
        old(base).startup is None,
    ensures
        final(base).startup == Some(now),
{
    base.startup = Some(now);
}

/// Initializes the time base of a peer from the primary's startup time and
/// the local reading `now`, so that time stamps taken here count from the
/// primary's startup. The time base can be initialized only once.
pub fn initialize_from(base: &mut TimeBase, sync_info: SyncInfo, now: TimeInfo)
    requires
        old(base).startup is None,
        TimeInfo::spec_from_sync(sync_info, now) is Some,
    ensures
        final(base).startup == TimeInfo::spec_from_sync(sync_info, now),
{
    base.startup = TimeInfo::from_sync(sync_info, now);
}

/// Returns the startup instant on the monotonic clock.
pub fn startup_instant(base: &TimeBase) -> (i: Instant)
    requires
        base.startup is Some,
    ensures
        i == base.startup->Some_0.instant,
{
    match base.startup {
        Some(info) => info.instant,
        None => unreached(),
    }
}

/// Returns the startup time on the system clock, in nanoseconds since the
/// Unix epoch, for another agent to initialize its time base from.
pub fn sync_info(base: &TimeBase) -> (info: SyncInfo)
    requires
        base.startup is Some,
        base.startup->Some_0.systime@ <= u64::MAX,
    ensures
        info.since_epoch == base.startup->Some_0.systime@,
{
    match base.startup {
        Some(info) => SyncInfo { since_epoch: info.systime.nanos as u64 },
        None => unreached(),
    }
}

/// Returns the time stamp at the reading `now` of the monotonic clock: the
/// nanoseconds elapsed since the startup instant, scaled by the speed factor.
/// A reading before the startup instant gives the stamp zero.
pub fn timestamp(base: &TimeBase, speed: &ClockSpeed, now: Instant) -> (t: Timestamp)
    requires
        base.startup is Some,
        base.spec_timestamp(*speed, now) <= u64::MAX,
    ensures
        t.0 == base.spec_timestamp(*speed, now),
{
    match base.checked_timestamp(speed, now) {
        Some(t) => t,
        None => unreached(),
    }
}

} // verus!
