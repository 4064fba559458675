//! Moving files to and from a device and managing directories there.
//!
//! Nothing here touches a session. A `TransferChannel` remembers which of the
//! two strategies the session offers, and a `Transfer` tells its driver, one
//! action at a time, what to do on the session next.

pub mod command;
pub mod error;
pub mod channel;
pub mod laws;
