//! The logger's record format and the pieces of its console output.

pub mod codec;
pub mod decode;
pub mod filter;
pub mod fmt;
pub mod laws;
pub mod level;
pub mod render;
pub mod sink;
pub mod record;
