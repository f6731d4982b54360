//! The scheduler of the primary agent: the per-cycle state of every activity,
//! and the rules by which activities are stepped.
//!
//! The scheduler decides; it neither sends nor receives. Whoever drives it
//! hands it each signal that arrived and sends what it asks for. What the
//! scheduler has asked for and taken note of in the current task chain is kept
//! in a log, which exists for the proofs only.
use vstd::prelude::*;
use crate::configuration::dependencies::{list_contains, ActivityDependencies};
use crate::feo_time::duration::Duration;
use crate::ids::ActivityId;

verus! {

/// The state of an activity within the current task chain.
#[derive(Debug, Clone, Copy, PartialEq, Eq, Structural)]
pub struct ActivityState {
    /// Whether the activity has been triggered.
    pub triggered: bool,
    /// Whether the activity has reported that it finished.
    pub ready: bool,
}

/// What the scheduler lets the recorders know of, in the order in which it
/// happens.
#[derive(Debug, Clone, Copy, PartialEq, Eq, Structural)]
pub enum Emission {
    /// A task chain started.
    TaskChainStart,
    /// The step of an activity was triggered.
    Step(ActivityId),
    /// An activity reported ready.
    Ready(ActivityId),
    /// The task chain ended.
    TaskChainEnd,
}

/// Where the scheduler stands.
#[derive(Debug, Clone, Copy, PartialEq, Eq, Structural)]
pub enum Phase {
    /// The activities are starting up; no task chain has started yet.
    Startup,
    /// A task chain is running.
    Stepping,
    /// The task chain has ended; the recorders are flushing.
    Flushing,
}

/// Whether the log holds a ready report of the activity before position `k`.
pub open spec fn ready_before(log: Seq<Emission>, a: ActivityId, k: int) -> bool {
    exists|m: int| 0 <= m < k && m < log.len() && log[m] == Emission::Ready(a)
}

/// Whether the entry is the step or the ready report of an activity.
pub open spec fn is_step_or_ready(e: Emission) -> bool {
    e is Step || e is Ready
}

/// The step triggers of a list of activities.
pub open spec fn spec_steps(ids: Seq<ActivityId>) -> Seq<Emission> {
    ids.map_values(|a: ActivityId| Emission::Step(a))
}

/// The scheduler: it executes the activities in the order that their
/// dependencies allow.
pub struct Scheduler {
    /// The target duration of a task chain cycle.
    pub cycle_time: Duration,
    /// For each activity the activities it depends on.
    pub activity_depends: ActivityDependencies,
    /// The state of each activity, in the order of `activity_depends`.
    pub activity_states: Vec<ActivityState>,
    /// Where the scheduler stands.
    pub phase: Phase,
    /// What happened in the current task chain, in order.
    pub log: Ghost<Seq<Emission>>,
}

impl Scheduler {
    /// The number of activities.
    #[verifier::inline]
    pub open spec fn n(&self) -> int {
        self.activity_depends.entries@.len() as int
    }

    /// The `i`-th activity.
    #[verifier::inline]
    pub open spec fn id(&self, i: int) -> ActivityId {
        self.activity_depends.id(i)
    }

    /// What the `i`-th activity depends on.
    #[verifier::inline]
    pub open spec fn deps(&self, i: int) -> Seq<ActivityId> {
        self.activity_depends.deps(i)
    }

    /// Whether the `i`-th activity has been triggered.
    #[verifier::inline]
    pub open spec fn triggered(&self, i: int) -> bool {
        self.activity_states@[i].triggered
    }

    /// Whether the `i`-th activity has reported ready.
    #[verifier::inline]
    pub open spec fn ready(&self, i: int) -> bool {
        self.activity_states@[i].ready
    }

    /// Every activity has a state, and no activity is listed twice.
    pub open spec fn wf(&self) -> bool {
        &&& self.activity_depends.wf()
        &&& self.activity_states@.len() == self.n()
    }

    /// Whether every activity has reported ready.
    pub open spec fn spec_is_all_ready(&self) -> bool {
        forall|i: int| 0 <= i < self.n() ==> self.ready(i)
    }

    /// Whether the `i`-th activity depends on the `j`-th.
    pub open spec fn depends(&self, i: int, j: int) -> bool {
        0 <= i < self.n() && 0 <= j < self.n() && self.deps(i).contains(self.id(j))
    }

    /// Whether every activity that the `i`-th one depends on has reported
    /// ready. A dependency that is no activity of the scheduler is not waited
    /// for.
    pub open spec fn spec_deps_ready(&self, i: int) -> bool {
        forall|j: int| #[trigger] self.depends(i, j) ==> self.ready(j)
    }

    /// Whether the `i`-th activity is to be stepped now: it has not been
    /// triggered, and what it depends on is ready.
    pub open spec fn spec_dispatchable(&self, i: int) -> bool {
        !self.triggered(i) && self.spec_deps_ready(i)
    }

    /// The activities among the first `upto` that are to be stepped now, in
    /// their order.
    pub open spec fn spec_dispatch(&self, upto: int) -> Seq<ActivityId>
        decreases upto,
    {
        if upto <= 0 {
            Seq::empty()
        } else if self.spec_dispatchable(upto - 1) {
            self.spec_dispatch(upto - 1).push(self.id(upto - 1))
        } else {
            self.spec_dispatch(upto - 1)
        }
    }

    /// Whether the step at position `k` of the log, if there is one, came
    /// after the ready reports of all that the stepped activity depends on.
    pub open spec fn step_justified(&self, k: int) -> bool {
        forall|i: int, j: int|
            #[trigger] self.depends(i, j) && self.log@[k] == Emission::Step(self.id(i))
                ==> ready_before(self.log@, self.id(j), k)
    }

    /// Whether the log accounts for the flags: every activity that counts as
    /// ready has its ready report in the log.
    pub open spec fn flags_logged(&self) -> bool {
        forall|j: int|
            0 <= j < self.n() && self.ready(j) ==> ready_before(
                self.log@,
                self.id(j),
                self.log@.len() as int,
            )
    }

    /// Whether the log has the shape of a task chain that is running: the
    /// start, then steps and ready reports only, each step justified.
    pub open spec fn log_running(&self) -> bool {
        &&& self.log@.len() >= 1
        &&& self.log@[0] == Emission::TaskChainStart
        &&& forall|k: int| 1 <= k < self.log@.len() ==> is_step_or_ready(#[trigger] self.log@[k])
        &&& forall|k: int| 0 <= k < self.log@.len() ==> self.step_justified(k)
        &&& self.flags_logged()
    }

    /// Whether the log has the shape of a task chain that has ended: the
    /// start, then steps and ready reports only, each step justified, then the
    /// end.
    pub open spec fn log_ended(&self) -> bool {
        &&& self.log@.len() >= 2
        &&& self.log@[0] == Emission::TaskChainStart
        &&& self.log@.last() == Emission::TaskChainEnd
        &&& forall|k: int|
            1 <= k < self.log@.len() - 1 ==> is_step_or_ready(#[trigger] self.log@[k])
        &&& forall|k: int| 0 <= k < self.log@.len() ==> self.step_justified(k)
        &&& self.flags_logged()
        &&& self.spec_is_all_ready()
    }

    /// The invariant of the scheduler.
    pub open spec fn inv(&self) -> bool {
        &&& self.wf()
        &&& match self.phase {
            Phase::Startup => self.log@.len() == 0,
            Phase::Stepping => self.log_running(),
            Phase::Flushing => self.log_ended(),
        }
    }

    /// Creates a scheduler for the given activities. Nothing is triggered and
    /// nothing is ready.
    pub fn new(cycle_time: Duration, activity_depends: ActivityDependencies) -> (s: Scheduler)
        requires
            activity_depends.wf(),
        ensures
            s.inv(),
            s.phase == Phase::Startup,
            s.cycle_time == cycle_time,
            s.activity_depends == activity_depends,
            forall|i: int| 0 <= i < s.n() ==> !s.triggered(i) && !s.ready(i),
    {
        let mut states: Vec<ActivityState> = Vec::new();
        let mut i: usize = 0;
        while i < activity_depends.len()
            invariant
                i <= activity_depends.entries@.len(),
                states@.len() == i,
                forall|k: int| 0 <= k < i ==> !states@[k].triggered && !states@[k].ready,
            decreases activity_depends.entries@.len() - i,
        {
            states.push(ActivityState { triggered: false, ready: false });
            i += 1;
        }
        Scheduler {
            cycle_time,
            activity_depends,
            activity_states: states,
            phase: Phase::Startup,
            log: Ghost(Seq::empty()),
        }
    }

    /// Checks whether all activities have reported ready.
    #[verifier::when_used_as_spec(spec_is_all_ready)]
    pub fn is_all_ready(&self) -> (b: bool)
        requires
            self.wf(),
        ensures
            b == self.spec_is_all_ready(),
    {
        let mut i: usize = 0;
        while i < self.activity_states.len()
            invariant
                self.wf(),
                i <= self.n(),
                forall|k: int| 0 <= k < i ==> self.ready(k),
            decreases self.n() - i,
        {
            if !self.activity_states[i].ready {
                assert(!self.ready(i as int));
                return false;
            }
            i += 1;
        }
        true
    }

    /// Checks whether every activity that the `i`-th one depends on has
    /// reported ready.
    pub fn deps_ready(&self, i: usize) -> (b: bool)
        requires
            self.wf(),
            i < self.n(),
        ensures
            b == self.spec_deps_ready(i as int),
    {
        let mut j: usize = 0;
        while j < self.activity_states.len()
            invariant
                self.wf(),
                i < self.n(),
                j <= self.n(),
                forall|k: int| 0 <= k < j && #[trigger] self.depends(i as int, k) ==> self.ready(k),
            decreases self.n() - j,
        {
            let id = self.activity_depends.entries[j].0;
            if list_contains(&self.activity_depends.entries[i].1, id)
                && !self.activity_states[j].ready {
                assert(self.depends(i as int, j as int) && !self.ready(j as int));
                return false;
            }
            j += 1;
        }
        true
    }
}

} // verus!
