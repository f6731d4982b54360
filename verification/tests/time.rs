use feo::feo_time::duration::Duration;
use feo::feo_time::instant::Instant;
use feo::feo_time::speed::{get_speed, speed, ClockSpeed, Scaled};
use feo::feo_time::system_time::SystemTime;
use feo::timestamp::{
    initialize, initialize_from, startup_instant, sync_info, time_info_now, timestamp,
    ClockSample, SyncInfo, TimeBase, TimeInfo, Timestamp,
};

fn at(nanos: u128) -> Instant {
    Instant { nanos }
}

fn sys(nanos: u128) -> SystemTime {
    SystemTime { nanos }
}

#[test]
fn durations_add_up() {
    let five_seconds = Duration::from_secs(5);
    assert_eq!(five_seconds, Duration::from_millis(5_000));
    assert_eq!(five_seconds, Duration::from_micros(5_000_000));
    assert_eq!(five_seconds, Duration::from_nanos(5_000_000_000));
    let total = Duration::from_secs(10)
        .checked_add(Duration::from_nanos(7))
        .unwrap();
    assert_eq!(total, Duration::new(10, 7));
    assert_eq!(total.as_secs(), 10);
    assert_eq!(total.subsec_nanos(), 7);
    assert_eq!(total.as_nanos(), 10_000_000_007);
    assert_eq!(Duration::max().checked_add(Duration::from_nanos(1)), None);
    assert_eq!(Duration::zero().checked_sub(Duration::from_nanos(1)), None);
    assert_eq!(
        Duration::from_nanos(3).saturating_sub(Duration::from_nanos(5)),
        Duration::zero()
    );
    assert_eq!(Duration::from_nanos(7).checked_div(2), Some(Duration::from_nanos(3)));
    assert_eq!(Duration::from_nanos(7).checked_div(0), None);
    assert_eq!(Duration::from_nanos(7).checked_mul(3), Some(Duration::from_nanos(21)));
    assert_eq!(Duration::max().checked_mul(2), None);
    assert!(Duration::zero().is_zero());
}

#[test]
fn instants_measure_elapsed_time() {
    assert_eq!(at(50).duration_since(at(20)), Duration::from_nanos(30));
    assert_eq!(at(20).duration_since(at(50)), Duration::zero());
    assert_eq!(at(20).checked_duration_since(at(50)), None);
    assert_eq!(at(50).checked_duration_since(at(20)), Some(Duration::from_nanos(30)));
    assert_eq!(at(20).saturating_duration_since(at(50)), Duration::zero());
    assert_eq!(at(20).elapsed(at(50)), Duration::from_nanos(30));
    assert_eq!(at(20).checked_add(Duration::from_nanos(5)), Some(at(25)));
    assert_eq!(at(u128::MAX).checked_add(Duration::from_nanos(1)), None);
    assert_eq!(at(20).checked_sub(Duration::from_nanos(5)), Some(at(15)));
    assert_eq!(at(20).checked_sub(Duration::from_nanos(21)), None);
}

#[test]
fn system_times_measure_elapsed_time() {
    assert_eq!(SystemTime::unix_epoch(), sys(0));
    assert_eq!(sys(50).duration_since(sys(20)), Ok(Duration::from_nanos(30)));
    let err = sys(20).duration_since(sys(50)).unwrap_err();
    assert_eq!(err.duration(), Duration::from_nanos(30));
    assert_eq!(sys(20).elapsed(sys(50)), Ok(Duration::from_nanos(30)));
    assert!(sys(50).elapsed(sys(20)).is_err());
    assert_eq!(sys(20).checked_add(Duration::from_nanos(5)), Some(sys(25)));
    assert_eq!(sys(20).checked_sub(Duration::from_nanos(21)), None);
    assert_eq!(sys(20).checked_sub(Duration::from_nanos(20)), Some(sys(0)));
}

#[test]
fn speed_factor_scales_both_clocks() {
    let mut clock = ClockSpeed::new();
    assert_eq!(get_speed(&clock), None);
    assert_eq!(Instant::now(&clock, at(1234)), at(1234));
    assert_eq!(SystemTime::now(&clock, sys(1234)), sys(1234));

    speed(&mut clock, 10, sys(1_000_000), at(1_000));
    assert_eq!(get_speed(&clock), Some(10));
    assert_eq!(Instant::now(&clock, at(1_000)), at(1_000));
    assert_eq!(Instant::now(&clock, at(1_005)), at(1_050));
    assert_eq!(Instant::now(&clock, at(900)), at(1_000));
    assert_eq!(SystemTime::now(&clock, sys(1_000_007)), sys(1_000_070));
    assert_eq!(SystemTime::checked_now(&clock, sys(999_999)), None);
    assert_eq!(Duration::from_nanos(100).scaled(&clock), Duration::from_nanos(10));

    let mut slow = ClockSpeed::new();
    speed(&mut slow, -4, sys(1_000_000), at(1_000));
    assert_eq!(get_speed(&slow), Some(-4));
    assert_eq!(Instant::now(&slow, at(1_010)), at(1_002));
    assert_eq!(SystemTime::now(&slow, sys(1_000_100)), sys(1_000_025));
    assert_eq!(Duration::from_nanos(100).scaled(&slow), Duration::from_nanos(400));
    assert_eq!(Instant::checked_now(&clock, at(u128::MAX)), None);
}

#[test]
fn time_info_takes_the_first_quiet_sample() {
    let noisy = ClockSample { instant: at(0), systime: sys(10), instant2: at(100) };
    let quiet = ClockSample { instant: at(500), systime: sys(20), instant2: at(599) };
    let later = ClockSample { instant: at(700), systime: sys(30), instant2: at(700) };
    assert!(!noisy.accepted());
    assert!(quiet.accepted());
    assert_eq!(
        time_info_now(&vec![noisy, quiet, later]),
        Some(TimeInfo { systime: sys(20), instant: at(500) })
    );
    assert_eq!(time_info_now(&vec![noisy, noisy]), None);
    assert_eq!(time_info_now(&vec![]), None);
    let mut eleven = vec![noisy; 10];
    eleven.push(quiet);
    assert_eq!(time_info_now(&eleven), None);
    let mut ten = vec![noisy; 9];
    ten.push(quiet);
    assert_eq!(time_info_now(&ten), Some(TimeInfo { systime: sys(20), instant: at(500) }));
}

#[test]
fn primary_and_secondary_agree_on_the_startup() {
    // The primary starts at T on the system clock.
    let t: u64 = 1_700_000_000_000_000_000;
    let mut primary = TimeBase::new();
    assert!(!primary.is_initialized());
    initialize(&mut primary, TimeInfo { systime: sys(t as u128), instant: at(5_000) });
    assert!(primary.is_initialized());
    assert_eq!(startup_instant(&primary), at(5_000));
    let info = sync_info(&primary);
    assert_eq!(info, SyncInfo { since_epoch: t });

    // The secondary synchronizes 2 s later; its monotonic clock has another origin.
    let mut secondary = TimeBase::new();
    let now = TimeInfo { systime: sys(t as u128 + 2_000_000_000), instant: at(9_000_000_000) };
    initialize_from(&mut secondary, info, now);
    assert_eq!(startup_instant(&secondary), at(7_000_000_000));
    assert_eq!(sync_info(&secondary), info);

    // The same moment, 3 s after the primary's startup, on both sides.
    let clock = ClockSpeed::new();
    assert_eq!(timestamp(&primary, &clock, at(5_000 + 3_000_000_000)), Timestamp(3_000_000_000));
    assert_eq!(timestamp(&secondary, &clock, at(10_000_000_000)), Timestamp(3_000_000_000));
    assert_eq!(timestamp(&secondary, &clock, at(1)), Timestamp(0));

    // A startup in the future, or before the monotonic clock began, cannot be told.
    assert_eq!(TimeInfo::from_sync(SyncInfo { since_epoch: t + 1 }, TimeInfo { systime: sys(t as u128), instant: at(5) }), None);
    assert_eq!(TimeInfo::from_sync(SyncInfo { since_epoch: t }, TimeInfo { systime: sys(t as u128 + 10), instant: at(9) }), None);
}

#[test]
fn time_stamps_follow_the_speed_factor() {
    let mut base = TimeBase::new();
    initialize(&mut base, TimeInfo { systime: sys(0), instant: at(100) });
    let mut fast = ClockSpeed::new();
    speed(&mut fast, 3, sys(0), at(100));
    assert_eq!(timestamp(&base, &fast, at(110)), Timestamp(30));
    let mut slow = ClockSpeed::new();
    speed(&mut slow, -2, sys(0), at(100));
    assert_eq!(timestamp(&base, &slow, at(111)), Timestamp(5));
    assert_eq!(base.checked_timestamp(&fast, at(u128::MAX)), None);
    assert_eq!(u64::from(Timestamp(7)), 7);
    assert_eq!(Timestamp::from(7u64), Timestamp(7));
    assert_eq!(SyncInfo::from(9u64).as_nanos(), 9);
}
