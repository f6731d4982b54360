//! The static declaration of a deployment: which activity depends on which,
//! and which worker of which agent runs it.

pub mod acyclic;
pub mod assignments;
pub mod dependencies;
pub mod primary_agent;
pub mod secondary_agent;
pub mod validation;
pub mod topics;
pub mod worker_pool;
