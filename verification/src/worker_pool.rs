//! The worker pool of an agent: its workers, each running the activities that
//! are pinned to it, the trigger side that routes a trigger to the worker of
//! its activity, and the listener side that keeps track of ready reports.

pub mod listener;


pub mod pool;
pub mod worker;
