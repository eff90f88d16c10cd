//! What the library takes for granted of `std::time::Duration`.
//!
//! A `Duration` is opaque to the verifier. The two names below stand for the
//! two numbers that it holds, and the specifications below say, in those
//! names, what the standard library documents of the four functions that the
//! library calls. None of it is proved here.

use std::time::Duration;
use vstd::prelude::*;

verus! {

/// The whole seconds of `d`: what `Duration::as_secs` reports.
pub uninterp spec fn secs_of(d: Duration) -> u64;

/// The part of `d` below one second, in nanoseconds: what
/// `Duration::subsec_nanos` reports.
pub uninterp spec fn subsec_nanos_of(d: Duration) -> u32;

/// `Duration::from_millis`: the duration of `millis` milliseconds, split
/// into whole seconds and the rest in nanoseconds.
pub assume_specification[ Duration::from_millis ](millis: u64) -> (d: Duration)
    ensures
        secs_of(d) == millis / 1000,
        subsec_nanos_of(d) == (millis % 1000) * 1_000_000,
;

/// `Duration::as_secs`: the whole seconds of the duration. The part below
/// one second does not count.
pub assume_specification[ Duration::as_secs ](d: &Duration) -> (secs: u64)
    ensures
        secs == secs_of(*d),
;

/// `Duration::subsec_millis`: the part below one second in whole
/// milliseconds. The whole seconds do not count.
pub assume_specification[ Duration::subsec_millis ](d: &Duration) -> (millis: u32)
    ensures
        millis == subsec_nanos_of(*d) / 1_000_000,
;

/// `Duration::new`: `secs` seconds and `nanos` nanoseconds, where every full
/// billion of nanoseconds is carried into the seconds. The standard library
/// panics when that carry overflows the seconds; such arguments are left out.
pub assume_specification[ Duration::new ](secs: u64, nanos: u32) -> (d: Duration)
    requires
        secs + nanos / 1_000_000_000 <= u64::MAX,
    ensures
        secs_of(d) == secs + nanos / 1_000_000_000,
        subsec_nanos_of(d) == nanos % 1_000_000_000,
;

} // verus!
