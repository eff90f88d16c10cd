//! The packet socket and its memory-mapped ring.

pub mod afpacket;
pub mod error;
pub mod kernel;
pub mod ring;
pub mod socket;
pub mod stats;
pub mod time;
