//! Temporal quantification: durations, instants of the monotonic clock and of
//! the system clock, and the speed factor that scales both clocks.
//!
//! The clocks themselves are read outside this library. A reading enters as a
//! plain value, and everything that is computed from it is stated here.

pub mod duration;
pub mod instant;
pub mod speed;
pub mod system_time;
