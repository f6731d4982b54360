//! Activities: the units of cyclic work that the runtime triggers.
//!
//! What an activity does in its methods is its own business; the runtime
//! decides when each method is called and takes note of when it returned.
//! An activity may say what its methods make of it: it tells its state as a
//! sequence of numbers of its own choosing, and for each method which states
//! the method may leave behind. An activity that says nothing is taken to
//! allow anything.
use vstd::prelude::*;
use crate::ids::ActivityId;

verus! {

/// Activity trait, to be implemented by any activity intended to run in a
/// worker pool.
pub trait Activity {
    /// The state of the activity, as the activity itself tells it.
    open spec fn spec_state(&self) -> Seq<int> {
        Seq::empty()
    }

    /// Whether `startup` may leave the activity in the state `after`.
    open spec fn spec_startup(&self, after: Seq<int>) -> bool {
        true
    }

    /// Whether `step` may leave the activity in the state `after`.
    open spec fn spec_step(&self, after: Seq<int>) -> bool {
        true
    }

    /// Whether `shutdown` may leave the activity in the state `after`.
    open spec fn spec_shutdown(&self, after: Seq<int>) -> bool {
        true
    }

    /// Get the id of the activity.
    fn id(&self) -> ActivityId;

    /// Called upon startup.
    fn startup(&mut self)
        ensures
            old(self).spec_startup(final(self).spec_state()),
    ;

    /// Called upon each step.
    fn step(&mut self)
        ensures
            old(self).spec_step(final(self).spec_state()),
    ;

    /// Called upon shutdown.
    fn shutdown(&mut self)
        ensures
            old(self).spec_shutdown(final(self).spec_state()),
    ;
}

} // verus!
