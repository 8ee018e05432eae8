//! Client-side lease management for DHCP (RFC 2131): the client state
//! machine, the derivation of its lease intervals, and the timer
//! disciplines that pace it.

pub mod address;
mod clock;
pub mod lease;
pub mod message;
pub mod state;
pub mod timer;
