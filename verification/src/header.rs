//! What the header of every protocol layer offers.

use vstd::prelude::*;

verus! {

/// The header of one protocol layer of a frame.
pub trait Header: Sized {
    /// The header with its fields in the byte order of this machine.
    fn decoded(&self) -> Self;

    /// The header of the layer that this one carries, made from `layer`.
    fn next_layer<T>(&self, layer: &T) -> T;
}

} // verus!
