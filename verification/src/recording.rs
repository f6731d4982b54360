//! Recording: what a recorder does with the signals of a task chain, and the
//! registry of the types whose data can be recorded.

pub mod recorder;
pub mod registry;
