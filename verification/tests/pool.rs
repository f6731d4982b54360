use feo::agent::secondary::{connect_to_primary, forward_trigger, receive_sync, SecondaryAgent};
use feo::configuration::assignments::{AgentConfig, WorkerPoolConfigInfo};
use feo::configuration::dependencies::ActivityDependencies;
use feo::configuration::primary_agent::Builder;
use feo::configuration::topics::{count_peers, Direction};
use feo::configuration::validation::{validate, ConfigError};
use feo::configuration::worker_pool::Builder as PoolBuilder;
use feo::feo_time::duration::Duration;
use feo::ids::{ActivityId, AgentId, WorkerId};
use feo::recording::recorder::{on_signal, send_recorder_ready, DataDescriptionRecord, RecorderAction};
use feo::signals::Signal;
use feo::timestamp::{SyncInfo, Timestamp};
use feo::worker_pool::listener::WorkerPoolListener;
use feo::worker_pool::pool::WorkerPool;
use feo::worker_pool::worker::{Lifecycle, Worker};

fn ids(list: &[usize]) -> Vec<ActivityId> {
    list.iter().map(|i| ActivityId(*i)).collect()
}

fn ready(id: usize) -> Signal {
    Signal::Ready((ActivityId(id), Timestamp(0)))
}

#[test]
fn signal_accessors_tell_what_a_signal_carries() {
    let step = Signal::Step((ActivityId(4), Timestamp(9)));
    assert_eq!(step.activity_id(), Some(ActivityId(4)));
    assert_eq!(step.agent_id(), None);
    assert_eq!(step.timestamp(), Some(Timestamp(9)));
    assert_eq!(step.sync_info(), None);
    let hello = Signal::HelloReady(AgentId(3));
    assert_eq!(hello.agent_id(), Some(AgentId(3)));
    assert_eq!(hello.activity_id(), None);
    assert_eq!(hello.timestamp(), None);
    let rec = Signal::RecorderReady((AgentId(8), Timestamp(1)));
    assert_eq!(rec.agent_id(), Some(AgentId(8)));
    assert_eq!(rec.timestamp(), Some(Timestamp(1)));
    let sync = Signal::StartupSync(SyncInfo { since_epoch: 5 });
    assert_eq!(sync.sync_info(), Some(SyncInfo { since_epoch: 5 }));
    assert_eq!(sync.timestamp(), None);
    assert_eq!(AgentId::new(3), AgentId::from(3));
    assert_eq!(usize::from(ActivityId::new(6)), 6);
    assert_eq!(WorkerId::new(2).value(), 2);
}

#[test]
fn listener_keeps_the_ready_flags() {
    let all = ids(&[1, 2, 3]);
    let mut l = WorkerPoolListener::new(&all);
    assert!(!l.is_all_ready(&all));
    assert!(l.is_all_ready(&[]));
    assert!(!l.wait_next_ready(Signal::Step((ActivityId(1), Timestamp(0)))));
    assert!(l.wait_next_ready(ready(2)));
    assert_eq!(l.ready_ids(), ids(&[2]));
    assert_eq!(
        l.ready_iter(),
        vec![(ActivityId(1), false), (ActivityId(2), true), (ActivityId(3), false)]
    );
    assert!(l.is_all_ready(&ids(&[2])));
    assert!(!l.is_all_ready(&ids(&[1, 2])));
    assert!(l.wait_next_ready(ready(1)));
    assert!(l.wait_next_ready(ready(3)));
    assert!(l.is_all_ready(&all));
    assert_eq!(l.ready_ids(), ids(&[1, 2, 3]));
    assert!(l.wait_next_ready(ready(9)));
    assert_eq!(l.ready_ids(), ids(&[1, 2, 3, 9]));
    l.clear_ready();
    assert_eq!(l.ready_ids(), ids(&[]));
    assert_eq!(l.activities_ready.len(), 4);
}

#[test]
fn pool_routes_triggers_to_the_worker_of_the_activity() {
    let config = vec![(WorkerId(40), ids(&[0, 1])), (WorkerId(41), ids(&[2]))];
    let pool = WorkerPool::new(&config);
    assert_eq!(pool.workers, vec![WorkerId(40), WorkerId(41)]);
    assert_eq!(pool.activity_ids, ids(&[0, 1, 2]));
    assert_eq!(pool.trigger(Signal::Step((ActivityId(1), Timestamp(0)))), WorkerId(40));
    assert_eq!(pool.trigger(Signal::Startup((ActivityId(2), Timestamp(0)))), WorkerId(41));
    assert_eq!(pool.workpool_trigger.worker_of(ActivityId(3)), None);
    let listener = pool.listener();
    assert_eq!(listener.activities_ready.len(), 3);
    let (workers, trigger) = pool.split();
    assert_eq!(workers.len(), 2);
    assert_eq!(
        forward_trigger(&trigger, Signal::Shutdown((ActivityId(0), Timestamp(0)))),
        Some(WorkerId(40))
    );
    assert_eq!(forward_trigger(&trigger, Signal::TaskChainEnd(Timestamp(0))), None);
    assert_eq!(forward_trigger(&trigger, Signal::Step((ActivityId(7), Timestamp(0)))), None);
}

#[test]
fn worker_runs_the_method_that_the_trigger_names() {
    let w = Worker::new(WorkerId(5), ids(&[1, 2]));
    assert_eq!(w.id(), WorkerId(5));
    let startup = Signal::Startup((ActivityId(1), Timestamp(0)));
    let step = Signal::Step((ActivityId(2), Timestamp(0)));
    let shutdown = Signal::Shutdown((ActivityId(1), Timestamp(0)));
    assert!(w.accepts(startup));
    assert_eq!(w.on_trigger(startup), (ActivityId(1), Lifecycle::Startup));
    assert_eq!(w.on_trigger(step), (ActivityId(2), Lifecycle::Step));
    assert_eq!(w.on_trigger(shutdown), (ActivityId(1), Lifecycle::Shutdown));
    assert!(!w.accepts(Signal::Step((ActivityId(3), Timestamp(0)))));
    assert!(!w.accepts(ready(1)));
    assert!(!w.accepts(Signal::TaskChainStart(Timestamp(0))));
    assert_eq!(Worker::ready_signal(ActivityId(2), Timestamp(8)), Signal::Ready((ActivityId(2), Timestamp(8))));
}

#[test]
fn secondary_reports_each_ready_once() {
    let config = vec![(WorkerId(40), ids(&[2, 3]))];
    let pool = WorkerPool::new(&config);
    let mut agent = SecondaryAgent::new(AgentId(101), &pool);
    assert_eq!(
        connect_to_primary(AgentId(101)),
        (Signal::HelloTrigger(AgentId(101)), Signal::HelloReady(AgentId(101)))
    );
    assert_eq!(receive_sync(Signal::StartupSync(SyncInfo { since_epoch: 3 })), Some(SyncInfo { since_epoch: 3 }));
    assert_eq!(receive_sync(ready(2)), None);
    assert_eq!(agent.on_worker_signal(ready(3)), ids(&[3]));
    assert_eq!(agent.on_worker_signal(ready(2)), ids(&[2]));
    assert_eq!(agent.on_worker_signal(Signal::Step((ActivityId(2), Timestamp(0)))), ids(&[]));
    assert_eq!(agent.on_worker_signal(ready(2)), ids(&[2]));
    assert_eq!(SecondaryAgent::send_ready(&ActivityId(2), Timestamp(4)), Signal::Ready((ActivityId(2), Timestamp(4))));
}

fn agent(id: usize, workers: &[(usize, &[usize])]) -> AgentConfig {
    (
        AgentId(id),
        WorkerPoolConfigInfo {
            workers: workers.iter().map(|(w, a)| (WorkerId(*w), ids(a))).collect(),
        },
    )
}

fn deps_of(entries: &[(usize, &[usize])]) -> ActivityDependencies {
    ActivityDependencies {
        entries: entries.iter().map(|(id, list)| (ActivityId(*id), ids(list))).collect(),
    }
}

#[test]
fn deployment_is_checked_before_it_is_built() {
    let map = vec![agent(0, &[(0, &[1, 2])]), agent(1, &[(1, &[3])])];
    let deps = deps_of(&[(1, &[]), (2, &[1]), (3, &[2])]);
    assert_eq!(validate(&map, &deps), Ok(()));

    let twice = vec![agent(0, &[(0, &[1, 2])]), agent(1, &[(1, &[3, 1])])];
    assert_eq!(validate(&twice, &deps), Err(ConfigError::DuplicateActivity(ActivityId(1))));

    let idle = vec![agent(0, &[(0, &[1, 2]), (7, &[])]), agent(1, &[(1, &[3])])];
    assert_eq!(validate(&idle, &deps), Err(ConfigError::UnassignedWorker(AgentId(0), WorkerId(7))));

    let own = deps_of(&[(1, &[]), (2, &[1, 2]), (3, &[2])]);
    assert_eq!(validate(&map, &own), Err(ConfigError::SelfDependency(ActivityId(2))));

    let dangling = deps_of(&[(1, &[]), (2, &[1, 9]), (3, &[2])]);
    assert_eq!(validate(&map, &dangling), Err(ConfigError::UnassignedActivity(ActivityId(9))));
    let stranger = deps_of(&[(1, &[]), (8, &[1])]);
    assert_eq!(validate(&map, &stranger), Err(ConfigError::UnassignedActivity(ActivityId(8))));
}

#[test]
fn primary_agent_is_built_piece_by_piece() {
    let builder = Builder::new();
    assert!(!builder.is_complete());
    let builder = builder
        .id(AgentId(0))
        .cycle_time(Duration::from_millis(100))
        .agent_map(vec![agent(0, &[(0, &[1, 2])]), agent(1, &[(1, &[3])])])
        .recorders(vec![AgentId(900)])
        .activity_dependencies(deps_of(&[(1, &[]), (2, &[1]), (3, &[2])]));
    assert!(builder.is_complete());
    assert_eq!(builder.check(), Ok(()));
    let agent = builder.build();
    assert_eq!(agent.scheduler.cycle_time, Duration::from_millis(100));
    assert_eq!(agent.connector.local_agent_id, AgentId(0));
    assert_eq!(agent.connector.secondary_agents, vec![AgentId(1)]);
    assert_eq!(agent.connector.recorders, vec![AgentId(900)]);
    assert_eq!(agent.connector.activity_map.len(), 3);
    assert_eq!(agent.scheduler.activity_states.len(), 3);
}

#[test]
fn worker_pool_is_built_from_its_assignments() {
    let mut builder = PoolBuilder::new(vec![]);
    assert!(builder.is_assignments_empty());
    builder.activity(WorkerId(1), ActivityId(10));
    builder.activity(WorkerId(2), ActivityId(20));
    builder.activity(WorkerId(1), ActivityId(11));
    builder.stack_size(4096);
    assert!(builder.contains_activity(ActivityId(11)));
    assert!(!builder.contains_activity(ActivityId(12)));
    assert_eq!(builder.assignments, vec![(WorkerId(1), ids(&[10, 11])), (WorkerId(2), ids(&[20]))]);
    assert_eq!(builder.stack_size, Some(4096));
    let pool = builder.build().unwrap();
    assert_eq!(pool.activity_ids, ids(&[10, 11, 20]));
    assert!(PoolBuilder::new(vec![]).build().is_none());

    let mut info = WorkerPoolConfigInfo::new();
    info.add_activity(WorkerId(3), ActivityId(1));
    info.add_activity(WorkerId(3), ActivityId(2));
    assert!(info.contains_activity(ActivityId(2)));
    assert!(!info.contains_activity(ActivityId(3)));
    assert_eq!(info.workers, vec![(WorkerId(3), ids(&[1, 2]))]);
}

#[test]
fn topics_count_their_writers_and_readers() {
    let peers = vec![
        (ActivityId(2), Direction::Outgoing),
        (ActivityId(3), Direction::Incoming),
        (ActivityId(4), Direction::Incoming),
        (ActivityId(5), Direction::Incoming),
    ];
    assert_eq!(count_peers(&peers), (1, 3));
    assert_eq!(count_peers(&vec![]), (0, 0));
    assert_eq!(Direction::default(), Direction::Incoming);
}

#[test]
fn recorder_flushes_at_the_end_of_the_task_chain() {
    assert_eq!(
        on_signal(Signal::Step((ActivityId(1), Timestamp(0)))),
        RecorderAction { record_com_data: true, flush_and_report: false }
    );
    assert_eq!(
        on_signal(Signal::TaskChainEnd(Timestamp(0))),
        RecorderAction { record_com_data: true, flush_and_report: true }
    );
    assert_eq!(
        on_signal(Signal::TaskChainStart(Timestamp(0))),
        RecorderAction { record_com_data: false, flush_and_report: false }
    );
    assert_eq!(
        on_signal(ready(1)),
        RecorderAction { record_com_data: false, flush_and_report: false }
    );
    assert_eq!(send_recorder_ready(AgentId(900), Timestamp(3)), Signal::RecorderReady((AgentId(900), Timestamp(3))));
}

#[test]
fn description_record_keeps_to_the_size_limit() {
    let s = String::from_utf8(vec![b'a'; 256]).expect("valid string");
    let record = DataDescriptionRecord {
        timestamp: Timestamp(u64::MAX),
        data_size: usize::MAX,
        typename: &s,
        topic: &s,
    };
    assert!(record.fits());
    let long = String::from_utf8(vec![b'a'; 257]).expect("valid string");
    let record = DataDescriptionRecord {
        timestamp: Timestamp(0),
        data_size: 0,
        typename: &s,
        topic: &long,
    };
    assert!(!record.fits());
}

use feo::configuration::acyclic::is_acyclic;

#[test]
fn cycles_in_the_dependency_graph_are_found() {
    assert!(is_acyclic(&deps_of(&[])));
    assert!(is_acyclic(&deps_of(&[(1, &[]), (2, &[1]), (3, &[2])])));
    assert!(is_acyclic(&deps_of(&[(3, &[2]), (2, &[1]), (1, &[])])));
    assert!(is_acyclic(&deps_of(&[
        (0, &[]),
        (1, &[]),
        (2, &[0, 1]),
        (3, &[2]),
        (4, &[2]),
        (5, &[3]),
        (6, &[4]),
        (7, &[4]),
    ])));
    assert!(!is_acyclic(&deps_of(&[(1, &[1])])));
    assert!(!is_acyclic(&deps_of(&[(1, &[2]), (2, &[1])])));
    assert!(!is_acyclic(&deps_of(&[(0, &[]), (1, &[3]), (2, &[1]), (3, &[2]), (4, &[0])])));
    // What is no activity of the graph is not waited for.
    assert!(is_acyclic(&deps_of(&[(1, &[9]), (2, &[1, 8])])));
}

#[test]
fn ids_are_shown_with_their_letter() {
    assert_eq!(AgentId(0).to_string(), "A0");
    assert_eq!(AgentId(101).to_string(), "A101");
    assert_eq!(ActivityId(42).to_string(), "A42");
    assert_eq!(WorkerId(7).to_string(), "W7");
    assert_eq!(WorkerId(7).thread_name(), "feo-w7");
    assert_eq!(WorkerId(40).thread_name(), "feo-w40");
}

use feo::activity::Activity;
use feo::worker_pool::worker::invoke;

struct Counter {
    id: ActivityId,
    calls: Vec<&'static str>,
}

impl Activity for Counter {
    fn id(&self) -> ActivityId {
        self.id
    }

    fn startup(&mut self) {
        self.calls.push("startup");
    }

    fn step(&mut self) {
        self.calls.push("step");
    }

    fn shutdown(&mut self) {
        self.calls.push("shutdown");
    }
}

#[test]
fn worker_calls_the_method_of_the_activity() {
    let mut activity = Counter { id: ActivityId(4), calls: vec![] };
    let worker = Worker::new(WorkerId(1), ids(&[4]));
    for signal in [
        Signal::Startup((ActivityId(4), Timestamp(0))),
        Signal::Step((ActivityId(4), Timestamp(1))),
        Signal::Step((ActivityId(4), Timestamp(2))),
        Signal::Shutdown((ActivityId(4), Timestamp(3))),
    ] {
        assert!(worker.accepts(signal));
        let (id, method) = worker.on_trigger(signal);
        assert_eq!(id, activity.id());
        invoke(&mut activity, method);
    }
    assert_eq!(activity.calls, vec!["startup", "step", "step", "shutdown"]);
    let mut boxed: Box<dyn Activity> = Box::new(Counter { id: ActivityId(5), calls: vec![] });
    invoke(boxed.as_mut(), Lifecycle::Step);
}

use feo::recording::registry::{str_eq, TypeInfo, TypeRegistry};

#[test]
fn test_type_registry() {
    let mut registry: TypeRegistry<u8> = TypeRegistry::new();
    registry.add_helper(TypeInfo { typename: "TestType1", comrec_builder: 1 });
    registry.add_helper(TypeInfo { typename: "TestType2", comrec_builder: 2 });
    registry.add_helper(TypeInfo { typename: "my_test_type3_name", comrec_builder: 3 });

    // test presence and data of entry for TestType1
    let name = "TestType1";
    assert!(registry.position(name).is_some());
    assert!(registry.info_name(name).is_some());
    assert_eq!(registry.info_name(name).unwrap().typename, name);

    // test presence and data of entry for TestType3
    let name = "my_test_type3_name";
    assert!(registry.position(name).is_some());
    assert!(registry.info_name(name).is_some());
    assert_eq!(registry.info_name(name).unwrap().typename, name);
    assert_eq!(registry.info_name(name).unwrap().comrec_builder, 3);

    // test missing type Foo
    let name = "Foo";
    assert!(registry.position(name).is_none());
    assert!(registry.info_name(name).is_none());
}

#[test]
fn registries_are_imported_in_their_order() {
    let mut registry: TypeRegistry<u8> = TypeRegistry::new();
    registry.add_helper(TypeInfo { typename: "a", comrec_builder: 1 });
    let mut other: TypeRegistry<u8> = TypeRegistry::new();
    other.add_helper(TypeInfo { typename: "b", comrec_builder: 2 });
    other.add_helper(TypeInfo { typename: "c", comrec_builder: 3 });
    registry.import(other);
    let names: Vec<&str> = registry.map.iter().map(|i| i.typename).collect();
    assert_eq!(names, vec!["a", "b", "c"]);
    assert_eq!(registry.position("c"), Some(2));
    assert!(str_eq("abc", "abc"));
    assert!(!str_eq("abc", "abd"));
    assert!(!str_eq("abc", "ab"));
    assert!(str_eq("", ""));
}

#[test]
fn several_activities_are_added_to_a_worker() {
    let mut info = WorkerPoolConfigInfo::new();
    info.add_activities(WorkerId(1), &ids(&[4, 5]));
    info.add_activities(WorkerId(2), &ids(&[6]));
    info.add_activities(WorkerId(1), &ids(&[7]));
    info.add_activities(WorkerId(3), &ids(&[]));
    assert_eq!(
        info.workers,
        vec![(WorkerId(1), ids(&[4, 5, 7])), (WorkerId(2), ids(&[6]))]
    );
    assert!(info.contains_activity(ActivityId(7)));
}

use feo::configuration::primary_agent::BuildError;
use feo::ids::{distinct_activities, distinct_agents};

fn full_builder(deps: ActivityDependencies, recorders: Vec<AgentId>) -> Builder {
    Builder::new()
        .id(AgentId(0))
        .cycle_time(Duration::from_millis(100))
        .agent_map(vec![agent(0, &[(0, &[1, 2])]), agent(1, &[(1, &[3])])])
        .recorders(recorders)
        .activity_dependencies(deps)
}

#[test]
fn agent_is_built_only_from_a_valid_deployment() {
    let good = deps_of(&[(1, &[]), (2, &[1]), (3, &[2])]);
    assert!(full_builder(good, vec![AgentId(900)]).try_build().is_ok());
    assert_eq!(Builder::new().try_build().err(), Some(BuildError::Incomplete));
    assert_eq!(
        Builder::new().id(AgentId(0)).cycle_time(Duration::from_millis(1)).try_build().err(),
        Some(BuildError::Incomplete)
    );
    let twice = deps_of(&[(1, &[]), (2, &[1]), (1, &[2])]);
    assert!(!twice.is_wf());
    assert_eq!(
        full_builder(twice, vec![]).try_build().err(),
        Some(BuildError::DuplicateDependencies)
    );
    let good = deps_of(&[(1, &[]), (2, &[1]), (3, &[2])]);
    assert!(good.is_wf());
    assert_eq!(
        full_builder(good, vec![AgentId(900), AgentId(901), AgentId(900)]).try_build().err(),
        Some(BuildError::DuplicateRecorder)
    );
    let own = deps_of(&[(1, &[1])]);
    assert_eq!(
        full_builder(own, vec![]).try_build().err(),
        Some(BuildError::Rejected(ConfigError::SelfDependency(ActivityId(1))))
    );
}

#[test]
fn lists_are_checked_for_repetition() {
    assert!(distinct_activities(&ids(&[])));
    assert!(distinct_activities(&ids(&[3, 1, 2])));
    assert!(!distinct_activities(&ids(&[3, 1, 3])));
    assert!(!distinct_activities(&ids(&[1, 1])));
    assert!(distinct_agents(&vec![AgentId(1), AgentId(2)]));
    assert!(!distinct_agents(&vec![AgentId(1), AgentId(2), AgentId(2)]));
}
