//! Coordination core for a fixed pool of remote conversion backends.
//!
//! The pool is scanned with non-blocking try-acquires; a slot whose backend
//! reported itself busy recently is skipped while alternatives exist, and a
//! caller that finds every slot taken or busy backs off, either by a timed
//! sleep or by waiting on a broadcast wake signal.  The selection, backoff
//! and wake decisions live here as a step function over an explicit state
//! machine, so that the surrounding runtime only performs the actions it is
//! told to perform.

pub mod balancer;
pub mod blocked;
pub mod counter;
pub mod error;
pub mod slot;
pub mod timing;
