//! Agents are the processes of a deployment. One of them, the primary agent,
//! runs the scheduler that triggers every activity of every agent; the others
//! relay its triggers to their workers and report back.

pub mod connector;
pub mod cycle;
pub mod driver;
pub mod fence;
pub mod handshake;
pub mod laws;
pub mod primary;
pub mod recording;
pub mod scheduler;
pub mod secondary;
pub mod startup;
