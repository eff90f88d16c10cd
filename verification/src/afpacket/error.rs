use vstd::prelude::*;

verus! {

/// Why an operation failed.
#[derive(Debug, Clone, Copy, PartialEq, Eq, Structural)]
pub enum Error {
    /// An argument was refused before any kernel call was asked for, or an
    /// operation was handed an answer that it cannot take: to a request
    /// that it does not make, or with a value that the call cannot return.
    InvalidInput,
    /// The kernel refused a call; the value is `errno` as the call left it.
    Os(i32),
}

} // verus!
