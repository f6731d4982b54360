//! Fixed Execution Order runtime: the deterministic core of a cyclic task-chain
//! scheduler, its signalling codec, its time base and its worker pool
//! bookkeeping, with every rule stated as a contract.
//!
//! The library decides and computes; it neither reads a clock nor touches a
//! socket. Whoever drives it hands it what was read and received, and
//! performs what it asks for. Beside the core stand the record format and the
//! console output of the logger, and the trace collector's book of spans.

pub mod activity;
pub mod agent;
pub mod be;
pub mod configuration;
pub mod error;
pub mod feo_time;
pub mod ids;
pub mod logger;
pub mod recording;
pub mod signalling;
pub mod signals;
pub mod text;
pub mod timestamp;
pub mod tracer;
pub mod worker_pool;
