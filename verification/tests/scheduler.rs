use feo::agent::scheduler::{Phase, Scheduler};
use feo::configuration::dependencies::ActivityDependencies;
use feo::feo_time::duration::Duration;
use feo::ids::ActivityId;
use feo::signals::Signal;
use feo::timestamp::Timestamp;

fn deps_of(entries: &[(usize, &[usize])]) -> ActivityDependencies {
    let mut deps = ActivityDependencies::new();
    for (id, list) in entries {
        deps.add_activity(ActivityId(*id));
        for d in list.iter() {
            deps.add_dependency(ActivityId(*id), ActivityId(*d));
        }
    }
    deps
}

fn ids(list: &[usize]) -> Vec<ActivityId> {
    list.iter().map(|i| ActivityId(*i)).collect()
}

fn ready(id: usize) -> Signal {
    Signal::Ready((ActivityId(id), Timestamp(0)))
}

#[test]
fn linear_chain_steps_one_after_the_other() {
    let deps = deps_of(&[(1, &[]), (2, &[1]), (3, &[2])]);
    let mut s = Scheduler::new(Duration::from_millis(100), deps);
    assert_eq!(s.phase, Phase::Startup);
    for _cycle in 0..3 {
        s.start_task_chain();
        assert_eq!(s.phase, Phase::Stepping);
        assert!(!s.is_all_ready());
        assert_eq!(s.step_foreach_ready(), ids(&[1]));
        assert_eq!(s.step_foreach_ready(), ids(&[]));
        assert!(!s.finish_task_chain());
        assert_eq!(s.wait_next_ready(ready(1)), Some(ActivityId(1)));
        assert_eq!(s.step_foreach_ready(), ids(&[2]));
        assert_eq!(s.wait_next_ready(ready(2)), Some(ActivityId(2)));
        assert!(!s.finish_task_chain());
        assert_eq!(s.step_foreach_ready(), ids(&[3]));
        assert_eq!(s.wait_next_ready(ready(3)), Some(ActivityId(3)));
        assert_eq!(s.step_foreach_ready(), ids(&[]));
        assert!(s.is_all_ready());
        assert!(s.finish_task_chain());
        assert_eq!(s.phase, Phase::Flushing);
    }
}

#[test]
fn fork_join_steps_in_insertion_order() {
    let deps = deps_of(&[
        (0, &[]),
        (1, &[]),
        (2, &[0, 1]),
        (3, &[2]),
        (4, &[2]),
        (5, &[3]),
        (6, &[4]),
        (7, &[4]),
    ]);
    let mut s = Scheduler::new(Duration::from_millis(100), deps);
    s.start_task_chain();
    assert_eq!(s.step_foreach_ready(), ids(&[0, 1]));
    assert_eq!(s.wait_next_ready(ready(1)), Some(ActivityId(1)));
    assert_eq!(s.step_foreach_ready(), ids(&[]));
    assert_eq!(s.wait_next_ready(ready(0)), Some(ActivityId(0)));
    assert_eq!(s.step_foreach_ready(), ids(&[2]));
    assert_eq!(s.wait_next_ready(ready(2)), Some(ActivityId(2)));
    assert_eq!(s.step_foreach_ready(), ids(&[3, 4]));
    assert_eq!(s.wait_next_ready(ready(4)), Some(ActivityId(4)));
    assert_eq!(s.step_foreach_ready(), ids(&[6, 7]));
    assert_eq!(s.wait_next_ready(ready(3)), Some(ActivityId(3)));
    assert_eq!(s.step_foreach_ready(), ids(&[5]));
    assert!(!s.finish_task_chain());
    assert_eq!(s.wait_next_ready(ready(5)), Some(ActivityId(5)));
    assert_eq!(s.wait_next_ready(ready(6)), Some(ActivityId(6)));
    assert_eq!(s.wait_next_ready(ready(7)), Some(ActivityId(7)));
    assert!(s.finish_task_chain());
}

#[test]
fn unexpected_signals_are_dropped() {
    let deps = deps_of(&[(1, &[]), (2, &[1])]);
    let mut s = Scheduler::new(Duration::from_millis(100), deps);
    s.start_task_chain();
    assert_eq!(s.step_foreach_ready(), ids(&[1]));
    assert_eq!(s.wait_next_ready(ready(9)), None);
    assert_eq!(
        s.wait_next_ready(Signal::Step((ActivityId(1), Timestamp(0)))),
        None
    );
    assert_eq!(s.wait_next_ready(Signal::TaskChainStart(Timestamp(0))), None);
    assert_eq!(s.step_foreach_ready(), ids(&[]));
    assert!(!s.is_all_ready());
}

#[test]
fn startup_phase_collects_ready_of_every_activity() {
    let deps = deps_of(&[(7, &[]), (3, &[7]), (5, &[3])]);
    let mut s = Scheduler::new(Duration::from_millis(100), deps);
    assert_eq!(s.startup_order(), ids(&[3, 5, 7]));
    assert!(!s.is_all_ready());
    assert_eq!(s.wait_next_ready(ready(5)), Some(ActivityId(5)));
    assert_eq!(s.wait_next_ready(ready(3)), Some(ActivityId(3)));
    assert!(!s.is_all_ready());
    assert_eq!(s.wait_next_ready(ready(7)), Some(ActivityId(7)));
    assert!(s.is_all_ready());
    s.start_task_chain();
    assert!(!s.is_all_ready());
    assert_eq!(s.step_foreach_ready(), ids(&[7]));
}

#[test]
fn time_left_is_what_is_missing_to_the_cycle_time() {
    let s = Scheduler::new(Duration::from_millis(100), ActivityDependencies::new());
    assert_eq!(
        s.time_left(Duration::from_millis(30)),
        Some(Duration::from_millis(70))
    );
    assert_eq!(
        s.time_left(Duration::from_nanos(99_999_999)),
        Some(Duration::from_nanos(1))
    );
    assert_eq!(s.time_left(Duration::from_millis(100)), None);
    assert_eq!(s.time_left(Duration::from_millis(200)), None);
}

#[test]
fn empty_schedule_is_always_ready() {
    let mut s = Scheduler::new(Duration::from_millis(5000), ActivityDependencies::new());
    assert!(s.is_all_ready());
    s.start_task_chain();
    assert_eq!(s.step_foreach_ready(), ids(&[]));
    assert!(s.finish_task_chain());
}

#[test]
fn dependency_is_entered_once() {
    let mut deps = ActivityDependencies::new();
    deps.add_dependency(ActivityId(2), ActivityId(1));
    deps.add_dependency(ActivityId(2), ActivityId(1));
    deps.add_dependencies(ActivityId(2), &ids(&[0, 1, 3]));
    assert_eq!(deps.len(), 1);
    assert_eq!(deps.entries[0].0, ActivityId(2));
    assert_eq!(deps.entries[0].1, ids(&[1, 0, 3]));
    assert!(deps.contains(ActivityId(2)));
    assert!(!deps.contains(ActivityId(1)));
}

use feo::agent::driver::CycleStep;

fn step_of(s: &mut Scheduler, id: usize) -> (Option<ActivityId>, Vec<ActivityId>, bool) {
    let CycleStep { marked, steps, finished } = s.on_signal(ready(id));
    (marked, steps, finished)
}

#[test]
fn linear_chain_emits_step_and_ready_in_turn() {
    let deps = deps_of(&[(1, &[]), (2, &[1]), (3, &[2])]);
    let mut s = Scheduler::new(Duration::from_millis(100), deps);
    for _cycle in 0..2 {
        assert_eq!(s.begin_cycle(), (ids(&[1]), false));
        assert_eq!(step_of(&mut s, 1), (Some(ActivityId(1)), ids(&[2]), false));
        assert_eq!(step_of(&mut s, 2), (Some(ActivityId(2)), ids(&[3]), false));
        assert_eq!(step_of(&mut s, 3), (Some(ActivityId(3)), ids(&[]), true));
        assert_eq!(s.phase, Phase::Flushing);
    }
}

#[test]
fn fork_join_waits_for_both_producers() {
    let deps = deps_of(&[
        (0, &[]),
        (1, &[]),
        (2, &[0, 1]),
        (3, &[2]),
        (4, &[2]),
        (5, &[3]),
        (6, &[4]),
        (7, &[4]),
    ]);
    let mut s = Scheduler::new(Duration::from_millis(100), deps);
    assert_eq!(s.begin_cycle(), (ids(&[0, 1]), false));
    assert_eq!(step_of(&mut s, 0), (Some(ActivityId(0)), ids(&[]), false));
    assert_eq!(step_of(&mut s, 0), (Some(ActivityId(0)), ids(&[]), false));
    assert_eq!(step_of(&mut s, 9), (None, ids(&[]), false));
    assert_eq!(step_of(&mut s, 1), (Some(ActivityId(1)), ids(&[2]), false));
    assert_eq!(step_of(&mut s, 2), (Some(ActivityId(2)), ids(&[3, 4]), false));
    assert_eq!(step_of(&mut s, 3), (Some(ActivityId(3)), ids(&[5]), false));
    assert_eq!(step_of(&mut s, 4), (Some(ActivityId(4)), ids(&[6, 7]), false));
    assert_eq!(step_of(&mut s, 7), (Some(ActivityId(7)), ids(&[]), false));
    assert_eq!(step_of(&mut s, 6), (Some(ActivityId(6)), ids(&[]), false));
    assert_eq!(step_of(&mut s, 5), (Some(ActivityId(5)), ids(&[]), true));
}

#[test]
fn cycle_without_activities_ends_at_once() {
    let mut s = Scheduler::new(Duration::from_millis(100), ActivityDependencies::new());
    assert_eq!(s.begin_cycle(), (ids(&[]), true));
    assert_eq!(s.phase, Phase::Flushing);
    assert_eq!(s.begin_cycle(), (ids(&[]), true));
}

#[test]
fn dependency_that_is_no_activity_is_not_waited_for() {
    let deps = deps_of(&[(1, &[7]), (2, &[1, 8])]);
    let mut s = Scheduler::new(Duration::from_millis(100), deps);
    assert_eq!(s.begin_cycle(), (ids(&[1]), false));
    assert_eq!(step_of(&mut s, 1), (Some(ActivityId(1)), ids(&[2]), false));
    assert_eq!(step_of(&mut s, 2), (Some(ActivityId(2)), ids(&[]), true));
}
