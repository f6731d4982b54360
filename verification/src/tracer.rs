//! The trace collector: the packets that traced processes send, and what the
//! collector makes of them.

pub mod data;
pub mod perfetto;
pub mod protocol;
pub mod spans;
pub mod threads;
