//! Setup of a kernel packet ring on a raw link-layer socket, as a state
//! machine: every operation says which kernel call it needs next and, once it
//! is handed the kernel's answer, what follows from it. No operation performs
//! a kernel call itself; the caller carries each request out and brings the
//! answer back.
//!
//! [`afpacket`] holds the socket, the ring records of the three ABI versions,
//! the statistics and the facade that ties them together. [`eth`] decodes
//! Ethernet headers from the frames that a ring delivers.

pub mod afpacket;
pub mod endian;
pub mod eth;
pub mod header;
