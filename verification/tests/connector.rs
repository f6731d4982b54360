use feo::agent::connector::{ActivityConnector, Assignment, Delivery};
use feo::agent::handshake::{Connections, HelloVerdict};
use feo::configuration::assignments::{
    assignments, find_duplicate, secondary_agents, AgentConfig, WorkerPoolConfigInfo,
};
use feo::ids::{ActivityId, AgentId, WorkerId};
use feo::signals::Signal;
use feo::timestamp::{SyncInfo, Timestamp};

fn agent(id: usize, workers: &[(usize, &[usize])]) -> AgentConfig {
    let mut pool = WorkerPoolConfigInfo::new();
    for (w, acts) in workers {
        for a in acts.iter() {
            pool.add_activity(WorkerId(*w), ActivityId(*a));
        }
    }
    (AgentId(id), pool)
}

fn fork_join_map() -> Vec<AgentConfig> {
    vec![
        agent(100, &[(40, &[0, 1])]),
        agent(101, &[(41, &[2]), (42, &[3])]),
        agent(102, &[(43, &[4, 5]), (44, &[6, 7])]),
    ]
}

fn connector(recorders: &[usize]) -> ActivityConnector {
    ActivityConnector::new(
        &fork_join_map(),
        recorders.iter().map(|r| AgentId(*r)).collect(),
        AgentId(100),
    )
}

#[test]
fn assignments_are_listed_agent_by_agent() {
    let list = assignments(&fork_join_map());
    assert_eq!(list.len(), 8);
    assert_eq!(
        list[0],
        Assignment { activity: ActivityId(0), agent: AgentId(100), worker: WorkerId(40) }
    );
    assert_eq!(
        list[3],
        Assignment { activity: ActivityId(3), agent: AgentId(101), worker: WorkerId(42) }
    );
    assert_eq!(
        list[7],
        Assignment { activity: ActivityId(7), agent: AgentId(102), worker: WorkerId(44) }
    );
    assert_eq!(find_duplicate(&list), None);
    assert_eq!(
        secondary_agents(&fork_join_map(), AgentId(100)),
        vec![AgentId(101), AgentId(102)]
    );
    let mut twice = fork_join_map();
    twice.push(agent(103, &[(45, &[9, 3])]));
    assert_eq!(find_duplicate(&assignments(&twice)), Some(ActivityId(3)));
}

#[test]
fn triggers_go_to_the_agent_of_the_activity_and_to_every_recorder() {
    let c = connector(&[900, 901]);
    let local = Signal::Step((ActivityId(1), Timestamp(5)));
    assert_eq!(
        c.step_activity(&ActivityId(1), Timestamp(5)),
        vec![
            Delivery::Local(local),
            Delivery::Record((AgentId(900), local)),
            Delivery::Record((AgentId(901), local)),
        ]
    );
    let remote = Signal::Step((ActivityId(2), Timestamp(6)));
    assert_eq!(
        c.step_activity(&ActivityId(2), Timestamp(6)),
        vec![
            Delivery::Remote((AgentId(101), remote)),
            Delivery::Record((AgentId(900), remote)),
            Delivery::Record((AgentId(901), remote)),
        ]
    );
    let startup = Signal::Startup((ActivityId(7), Timestamp(1)));
    assert_eq!(
        c.startup_activity(&ActivityId(7), Timestamp(1))[0],
        Delivery::Remote((AgentId(102), startup))
    );
    let shutdown = Signal::Shutdown((ActivityId(0), Timestamp(2)));
    assert_eq!(
        c.shutdown_activity(&ActivityId(0), Timestamp(2))[0],
        Delivery::Local(shutdown)
    );
    assert_eq!(c.assignment_of(ActivityId(8)), None);
    assert_eq!(c.assignment_of(ActivityId(5)).unwrap().worker, WorkerId(43));
}

#[test]
fn task_chain_marks_and_ready_reports_go_to_the_recorders_only() {
    let c = connector(&[900]);
    assert_eq!(
        c.record_task_chain_start(Timestamp(1)),
        vec![Delivery::Record((AgentId(900), Signal::TaskChainStart(Timestamp(1))))]
    );
    assert_eq!(
        c.record_task_chain_end(Timestamp(2)),
        vec![Delivery::Record((AgentId(900), Signal::TaskChainEnd(Timestamp(2))))]
    );
    let ready = Signal::Ready((ActivityId(3), Timestamp(9)));
    assert_eq!(
        c.wait_next_ready(ready),
        (Some(ActivityId(3)), vec![Delivery::Record((AgentId(900), ready))])
    );
    assert_eq!(c.wait_next_ready(Signal::TaskChainStart(Timestamp(1))), (None, vec![]));
    let none = connector(&[]);
    assert_eq!(none.record_task_chain_start(Timestamp(1)), vec![]);
    assert_eq!(none.step_activity(&ActivityId(0), Timestamp(0)).len(), 1);
}

#[test]
fn startup_time_goes_to_secondaries_then_recorders() {
    let c = connector(&[900]);
    let sync = Signal::StartupSync(SyncInfo { since_epoch: 77 });
    assert_eq!(
        c.sync_time(SyncInfo { since_epoch: 77 }),
        vec![
            Delivery::Remote((AgentId(101), sync)),
            Delivery::Remote((AgentId(102), sync)),
            Delivery::Remote((AgentId(900), sync)),
        ]
    );
}

#[test]
fn recorder_fence_waits_for_every_recorder() {
    let mut c = connector(&[900, 901]);
    assert!(c.clear_recorders_ready());
    assert!(!c.all_recorders_ready());
    assert!(!c.wait_recorders_ready(Signal::Ready((ActivityId(1), Timestamp(0)))));
    assert!(!c.wait_recorders_ready(Signal::RecorderReady((AgentId(7), Timestamp(0)))));
    assert!(!c.wait_recorders_ready(Signal::RecorderReady((AgentId(901), Timestamp(0)))));
    assert!(!c.wait_recorders_ready(Signal::RecorderReady((AgentId(901), Timestamp(1)))));
    assert!(c.wait_recorders_ready(Signal::RecorderReady((AgentId(900), Timestamp(2)))));
    assert!(c.all_recorders_ready());
    assert!(c.clear_recorders_ready());
    assert!(!c.all_recorders_ready());

    let mut none = connector(&[]);
    assert!(!none.clear_recorders_ready());
    assert!(none.all_recorders_ready());
}

#[test]
fn late_secondary_holds_the_primary_back() {
    let c = connector(&[900]);
    let mut conns = Connections::new();
    assert!(!c.has_all_connections(&conns));
    assert_eq!(
        c.handle_hello(Signal::HelloTrigger(AgentId(101)), &mut conns),
        HelloVerdict::KeepTrigger(AgentId(101))
    );
    assert_eq!(
        c.handle_hello(Signal::HelloTrigger(AgentId(101)), &mut conns),
        HelloVerdict::Duplicate(AgentId(101))
    );
    assert_eq!(
        c.handle_hello(Signal::HelloReady(AgentId(101)), &mut conns),
        HelloVerdict::KeepReady(AgentId(101))
    );
    assert_eq!(
        c.handle_hello(Signal::HelloReady(AgentId(5)), &mut conns),
        HelloVerdict::Unexpected(AgentId(5))
    );
    assert_eq!(
        c.handle_hello(Signal::HelloReady(AgentId(100)), &mut conns),
        HelloVerdict::Unexpected(AgentId(100))
    );
    assert_eq!(
        c.handle_hello(Signal::TaskChainStart(Timestamp(0)), &mut conns),
        HelloVerdict::NoHello
    );
    for id in [900usize, 102] {
        assert!(!c.has_all_connections(&conns));
        assert_eq!(
            c.handle_hello(Signal::HelloReady(AgentId(id)), &mut conns),
            HelloVerdict::KeepReady(AgentId(id))
        );
        assert!(!c.has_all_connections(&conns));
        assert_eq!(
            c.handle_hello(Signal::HelloTrigger(AgentId(id)), &mut conns),
            HelloVerdict::KeepTrigger(AgentId(id))
        );
    }
    assert!(c.has_all_connections(&conns));
    assert_eq!(conns.trigger, vec![AgentId(101), AgentId(900), AgentId(102)]);
    assert_eq!(conns.ready, vec![AgentId(101), AgentId(900), AgentId(102)]);
    assert!(c.expects(AgentId(900)));
    assert!(!c.expects(AgentId(100)));
}

use feo::agent::scheduler::Scheduler;
use feo::configuration::dependencies::ActivityDependencies;
use feo::feo_time::duration::Duration;

fn recorded(deliveries: &[Delivery], recorder: AgentId, stream: &mut Vec<Signal>) {
    for d in deliveries {
        match d {
            Delivery::Record((a, s)) | Delivery::Remote((a, s)) if *a == recorder => stream.push(*s),
            _ => {}
        }
    }
}

#[test]
fn recorder_sees_the_task_chain_in_order() {
    let map = vec![agent(0, &[(0, &[1, 2])]), agent(1, &[(1, &[3])])];
    let connector = ActivityConnector::new(&map, vec![AgentId(900), AgentId(901)], AgentId(0));
    let deps = ActivityDependencies {
        entries: vec![
            (ActivityId(1), vec![]),
            (ActivityId(2), vec![ActivityId(1)]),
            (ActivityId(3), vec![ActivityId(2)]),
        ],
    };
    let mut scheduler = Scheduler::new(Duration::from_millis(100), deps);
    for recorder in [AgentId(900), AgentId(901)] {
        let mut stream = Vec::new();
        let mut clock = 0u64;
        let mut now = || {
            clock += 1;
            Timestamp(clock)
        };
        recorded(&connector.record_task_chain_start(now()), recorder, &mut stream);
        let (steps, mut finished) = scheduler.begin_cycle();
        let mut pending: Vec<ActivityId> = Vec::new();
        for id in steps {
            recorded(&connector.step_activity(&id, now()), recorder, &mut stream);
            pending.push(id);
        }
        while !finished {
            let id = pending.remove(0);
            let signal = Signal::Ready((id, now()));
            let step = scheduler.on_signal(signal);
            assert_eq!(step.marked, Some(id));
            recorded(&connector.wait_next_ready(signal).1, recorder, &mut stream);
            for next in step.steps {
                recorded(&connector.step_activity(&next, now()), recorder, &mut stream);
                pending.push(next);
            }
            finished = step.finished;
        }
        recorded(&connector.record_task_chain_end(now()), recorder, &mut stream);
        assert_eq!(
            stream,
            vec![
                Signal::TaskChainStart(Timestamp(1)),
                Signal::Step((ActivityId(1), Timestamp(2))),
                Signal::Ready((ActivityId(1), Timestamp(3))),
                Signal::Step((ActivityId(2), Timestamp(4))),
                Signal::Ready((ActivityId(2), Timestamp(5))),
                Signal::Step((ActivityId(3), Timestamp(6))),
                Signal::Ready((ActivityId(3), Timestamp(7))),
                Signal::TaskChainEnd(Timestamp(8)),
            ]
        );
    }
}
