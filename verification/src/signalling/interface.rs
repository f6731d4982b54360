//! The two ends of a signal transport.
//!
//! A transport is whatever moves values of `T` from a sender to a receiver: a
//! queue inside a process, or a framed stream between processes. The runtime
//! decides what to send and what to do with what was received; how the values
//! travel is the implementor's business, and nothing is promised of it here.
use vstd::prelude::*;
use crate::error::Error;

verus! {

/// The receiving end of a transport.
pub trait Receiver<T> {
    /// Waits for the next value.
    fn recv(&mut self) -> Result<T, Error>;
}

/// The sending end of a transport.
pub trait Sender<T> {
    /// Hands a value to the transport.
    fn send(&mut self, t: T) -> Result<(), Error>;
}

} // verus!
