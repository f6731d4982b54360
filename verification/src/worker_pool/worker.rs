//! The worker: a thread that owns a fixed set of activities and runs, for each
//! trigger it receives, the matching method of the triggered activity.
use vstd::pervasive::unreached;
use vstd::prelude::*;
use crate::activity::Activity;
use crate::ids::{ActivityId, WorkerId};
use crate::signals::Signal;
use crate::timestamp::Timestamp;
use crate::worker_pool::listener::slice_contains;

verus! {

/// The methods of an activity's life.
#[derive(Debug, Clone, Copy, PartialEq, Eq, Structural)]
pub enum Lifecycle {
    /// Called once, before the first step.
    Startup,
    /// Called once in every task chain.
    Step,
    /// Called once, after the last step.
    Shutdown,
}

/// A worker and the activities pinned to it.
pub struct Worker {
    /// The id of the worker.
    pub id: WorkerId,
    /// The activities that the worker runs, in the order in which they were
    /// assigned.
    pub activities: Vec<ActivityId>,
}

/// The method that a signal asks for, if it is a trigger.
pub open spec fn spec_lifecycle(signal: Signal) -> Option<Lifecycle> {
    match signal {
        Signal::Startup(_) => Some(Lifecycle::Startup),
        Signal::Step(_) => Some(Lifecycle::Step),
        Signal::Shutdown(_) => Some(Lifecycle::Shutdown),
        _ => None,
    }
}

impl Worker {
    /// Creates a worker for the given activities.
    pub fn new(id: WorkerId, activities: Vec<ActivityId>) -> (w: Worker)
        ensures
            w.id == id,
            w.activities@ == activities@,
    {
        Worker { id, activities }
    }

    /// The id of the worker.
    pub fn id(&self) -> (id: WorkerId)
        ensures
            id == self.id,
    {
        self.id
    }

    /// Whether the signal is a trigger for an activity of this worker.
    pub open spec fn spec_accepts(&self, signal: Signal) -> bool {
        spec_lifecycle(signal) is Some && self.activities@.contains(
            signal.spec_activity_id()->Some_0,
        )
    }

    /// Returns whether the signal is a trigger for an activity of this
    /// worker. Anything else on the trigger queue of a worker is a violation
    /// of the protocol.
    #[verifier::when_used_as_spec(spec_accepts)]
    pub fn accepts(&self, signal: Signal) -> (b: bool)
        ensures
            b == self.spec_accepts(signal),
    {
        match signal {
            Signal::Startup((id, _)) => slice_contains(self.activities.as_slice(), id),
            Signal::Step((id, _)) => slice_contains(self.activities.as_slice(), id),
            Signal::Shutdown((id, _)) => slice_contains(self.activities.as_slice(), id),
            _ => false,
        }
    }

    /// Says which method of which activity a trigger asks for: the startup,
    /// the step or the shutdown of the activity that the signal names.
    pub fn on_trigger(&self, signal: Signal) -> (r: (ActivityId, Lifecycle))
        requires
            self.spec_accepts(signal),
        ensures
            Some(r.0) == signal.spec_activity_id(),
            Some(r.1) == spec_lifecycle(signal),
    {
        match signal {
            Signal::Startup((id, _)) => (id, Lifecycle::Startup),
            Signal::Step((id, _)) => (id, Lifecycle::Step),
            Signal::Shutdown((id, _)) => (id, Lifecycle::Shutdown),
            _ => unreached(),
        }
    }

    /// The signal by which the worker reports that the method it ran for the
    /// activity has returned, whatever came of it.
    pub fn ready_signal(activity_id: ActivityId, now: Timestamp) -> (s: Signal)
        ensures
            s == Signal::Ready((activity_id, now)),
    {
        Signal::Ready((activity_id, now))
    }
}

} // verus!

verus! {

/// Runs the method of an activity that the trigger asked for, once: startup,
/// step or shutdown, and no other. What the method does, and whether it comes
/// to a good end, is the activity's business; ready is sent whatever came of it.
pub fn invoke<A: Activity + ?Sized>(activity: &mut A, method: Lifecycle)
    ensures
        spec_invoked(old(activity), final(activity), method),
{
    match method {
        Lifecycle::Startup => activity.startup(),
        Lifecycle::Step => activity.step(),
        Lifecycle::Shutdown => activity.shutdown(),
    }
}

/// Whether the method that `method` names may turn the activity `before` into
/// `after`: its startup, its step or its shutdown.
pub open spec fn spec_invoked<A: Activity + ?Sized>(before: &A, after: &A, method: Lifecycle) -> bool {
    match method {
        Lifecycle::Startup => before.spec_startup(after.spec_state()),
        Lifecycle::Step => before.spec_step(after.spec_state()),
        Lifecycle::Shutdown => before.spec_shutdown(after.spec_state()),
    }
}

} // verus!
