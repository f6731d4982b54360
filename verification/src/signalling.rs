//! Signalling between agents: the fixed-layout frames that carry signals over
//! stream connections, and the interfaces of the transports.

pub mod codec;
pub mod decode;
pub mod interface;
pub mod laws;
pub mod pdu;
pub mod tag;
