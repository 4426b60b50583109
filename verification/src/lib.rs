//! Client-side session core of a device-control protocol.
//!
//! The crate holds the pieces of one client session that decide something:
//! the write-once reply cell that pairs a request with its answer, the
//! registry of devices that the server has announced, and the step function
//! of the session loop. Awaiting a queue or the transport is left to the
//! caller, who feeds what it received into the step function and carries out
//! the action that comes back.

pub mod sync;
pub mod errors;
pub mod future;
pub mod messages;
pub mod registry;
pub mod device;
pub mod internal;
