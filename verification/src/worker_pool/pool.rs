//! The pool: its workers, its activities, and the routes of its triggers.
use vstd::pervasive::unreached;
use vstd::prelude::*;
use crate::ids::{ActivityId, WorkerId};
use crate::signals::Signal;
use crate::worker_pool::listener::{spec_distinct_ids, WorkerPoolListener};

verus! {

/// The route of an activity: the worker whose queue takes its triggers.
#[derive(Debug, Clone, Copy, PartialEq, Eq, Structural)]
pub struct Route {
    /// The activity.
    pub activity: ActivityId,
    /// The worker that runs it.
    pub worker: WorkerId,
}

/// The trigger side of a worker pool.
pub struct WorkerPoolTrigger {
    /// For each activity of the pool its route. No activity stands twice.
    pub trigger_senders: Vec<Route>,
}

/// A pool of workers.
pub struct WorkerPool {
    /// The workers, in the order of the configuration.
    pub workers: Vec<WorkerId>,
    /// The activities of all workers, worker by worker.
    pub activity_ids: Vec<ActivityId>,
    /// The trigger side of the pool.
    pub workpool_trigger: WorkerPoolTrigger,
}

/// The routes of a configuration: those of its workers, one worker after the
/// other, each activity to its worker.
pub open spec fn spec_routes(config: Seq<(WorkerId, Vec<ActivityId>)>) -> Seq<Route>
    decreases config.len(),
{
    if config.len() == 0 {
        Seq::empty()
    } else {
        spec_routes(config.drop_last()) + config.last().1@.map_values(
            |a: ActivityId| Route { activity: a, worker: config.last().0 },
        )
    }
}

/// The activities of a list of routes, in their order.
pub open spec fn spec_route_ids(routes: Seq<Route>) -> Seq<ActivityId> {
    routes.map_values(|r: Route| r.activity)
}

impl WorkerPoolTrigger {
    /// No activity has two routes.
    pub open spec fn wf(&self) -> bool {
        spec_distinct_ids(spec_route_ids(self.trigger_senders@))
    }

    /// Whether the activity has a route.
    pub open spec fn spec_knows(&self, id: ActivityId) -> bool {
        exists|i: int| 0 <= i < self.trigger_senders@.len() && self.trigger_senders@[i].activity == id
    }

    /// Looks up the worker that runs an activity.
    pub fn worker_of(&self, id: ActivityId) -> (r: Option<WorkerId>)
        ensures
            r is Some <==> self.spec_knows(id),
            r is Some ==> exists|i: int|
                0 <= i < self.trigger_senders@.len() && self.trigger_senders@[i] == (Route {
                    activity: id,
                    worker: r->Some_0,
                }),
    {
        let mut i: usize = 0;
        while i < self.trigger_senders.len()
            invariant
                i <= self.trigger_senders@.len(),
                forall|k: int| 0 <= k < i ==> self.trigger_senders@[k].activity != id,
            decreases self.trigger_senders@.len() - i,
        {
            if self.trigger_senders[i].activity.0 == id.0 {
                assert(self.trigger_senders@[i as int] == (Route {
                    activity: id,
                    worker: self.trigger_senders@[i as int].worker,
                }));
                return Some(self.trigger_senders[i].worker);
            }
            i += 1;
        }
        None
    }

    /// Triggers an activity of the pool: says to which worker's queue the
    /// signal goes, the worker that runs the activity which the signal names.
    pub fn trigger(&self, signal: Signal) -> (w: WorkerId)
        requires
            signal.spec_activity_id() is Some,
            self.spec_knows(signal.spec_activity_id()->Some_0),
        ensures
            exists|i: int|
                0 <= i < self.trigger_senders@.len() && self.trigger_senders@[i] == (Route {
                    activity: signal.spec_activity_id()->Some_0,
                    worker: w,
                }),
    {
        let id = match signal.activity_id() {
            Some(id) => id,
            None => unreached(),
        };
        match self.worker_of(id) {
            Some(w) => w,
            None => unreached(),
        }
    }
}

impl WorkerPool {
    /// Creates a worker pool from a configuration that names, for each
    /// worker, the activities it runs. The configuration may not be empty,
    /// and no activity may be assigned twice.
    pub fn new(config: &Vec<(WorkerId, Vec<ActivityId>)>) -> (pool: WorkerPool)
        requires
            config@.len() > 0,
            spec_distinct_ids(spec_route_ids(spec_routes(config@))),
        ensures
            pool.workers@ == config@.map_values(|e: (WorkerId, Vec<ActivityId>)| e.0),
            pool.workpool_trigger.trigger_senders@ == spec_routes(config@),
            pool.activity_ids@ == spec_route_ids(spec_routes(config@)),
            pool.workpool_trigger.wf(),
    {
        let mut routes: Vec<Route> = Vec::new();
        let mut workers: Vec<WorkerId> = Vec::new();
        let mut activity_ids: Vec<ActivityId> = Vec::new();
        let mut w: usize = 0;
        assert(config@.take(0) =~= Seq::empty());
        assert(activity_ids@ =~= spec_route_ids(routes@));
        assert(workers@ =~= config@.take(0).map_values(|e: (WorkerId, Vec<ActivityId>)| e.0));
        while w < config.len()
            invariant
                w <= config@.len(),
                routes@ == spec_routes(config@.take(w as int)),
                activity_ids@ == spec_route_ids(routes@),
                workers@ == config@.take(w as int).map_values(|e: (WorkerId, Vec<ActivityId>)| e.0),
            decreases config@.len() - w,
        {
            let worker = config[w].0;
            let activities = &config[w].1;
            let ghost base = routes@;
            let mut k: usize = 0;
            assert(routes@ =~= base + activities@.take(0).map_values(
                |a: ActivityId| Route { activity: a, worker },
            ));
            while k < activities.len()
                invariant
                    k <= activities@.len(),
                    routes@ == base + activities@.take(k as int).map_values(
                        |a: ActivityId| Route { activity: a, worker },
                    ),
                    activity_ids@ == spec_route_ids(routes@),
                decreases activities@.len() - k,
            {
                routes.push(Route { activity: activities[k], worker });
                activity_ids.push(activities[k]);
                k += 1;
                assert(routes@ =~= base + activities@.take(k as int).map_values(
                    |a: ActivityId| Route { activity: a, worker },
                ));
                assert(activity_ids@ =~= spec_route_ids(routes@));
            }
            workers.push(worker);
            w += 1;
            proof {
                assert(activities@.take(activities@.len() as int) =~= activities@);
                assert(config@.take(w as int).drop_last() =~= config@.take(w - 1));
                assert(config@.take(w as int).last() == config@[w - 1]);
                assert(workers@ =~= config@.take(w as int).map_values(
                    |e: (WorkerId, Vec<ActivityId>)| e.0,
                ));
            }
        }
        assert(config@.take(config@.len() as int) =~= config@);
        WorkerPool {
            workers,
            activity_ids,
            workpool_trigger: WorkerPoolTrigger { trigger_senders: routes },
        }
    }

    /// Creates a listener to this worker pool: one flag for each of its
    /// activities.
    pub fn listener(&self) -> (l: WorkerPoolListener)
        requires
            spec_distinct_ids(self.activity_ids@),
        ensures
            l.wf(),
            l.ids() == self.activity_ids@,
            forall|i: int| 0 <= i < l.activities_ready@.len() ==> !l.activities_ready@[i].1,
    {
        WorkerPoolListener::new(self.activity_ids.as_slice())
    }

    /// Splits the worker pool into its workers and its trigger side.
    pub fn split(self) -> (r: (Vec<WorkerId>, WorkerPoolTrigger))
        ensures
            r.0 == self.workers,
            r.1 == self.workpool_trigger,
    {
        (self.workers, self.workpool_trigger)
    }

    /// Triggers an activity of the pool: says to which worker's queue the
    /// signal goes.
    pub fn trigger(&self, signal: Signal) -> (w: WorkerId)
        requires
            signal.spec_activity_id() is Some,
            self.workpool_trigger.spec_knows(signal.spec_activity_id()->Some_0),
        ensures
            exists|i: int|
                0 <= i < self.workpool_trigger.trigger_senders@.len()
                    && self.workpool_trigger.trigger_senders@[i] == (Route {
                    activity: signal.spec_activity_id()->Some_0,
                    worker: w,
                }),
    {
        self.workpool_trigger.trigger(signal)
    }
}

} // verus!
