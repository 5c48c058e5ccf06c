//! Verified core of a telnet front end for a locally spawned terminal program.
//!
//! The crate holds the decisions of the service and none of its input or output:
//! callers perform the reads, writes and waits that the state machines ask for
//! and report back what happened.

pub mod buffer;
pub mod escape;
pub mod protocol;
pub mod server;
pub mod session;
pub mod telnet;
