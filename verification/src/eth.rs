//! Ethernet frames.

pub mod ethernet;
pub mod macaddr;
