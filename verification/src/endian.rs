//! Big-endian numbers in byte strings.

use vstd::prelude::*;

verus! {

/// The 16-bit number whose big-endian form is the two bytes of `bytes` from
/// `at` on.
pub open spec fn be16(bytes: Seq<u8>, at: int) -> u16 {
    (bytes[at] * 0x100 + bytes[at + 1]) as u16
}

/// The 32-bit number whose big-endian form is the four bytes of `bytes`
/// from `at` on.
pub open spec fn be32(bytes: Seq<u8>, at: int) -> u32 {
    (bytes[at] * 0x100_0000 + bytes[at + 1] * 0x1_0000 + bytes[at + 2] * 0x100 + bytes[at
        + 3]) as u32
}

/// A big-endian number is its bytes weighted by powers of 256, first byte
/// highest, and nothing is cut off: two bytes fill 16 bits and four bytes
/// fill 32.
pub proof fn lemma_big_endian_is_exact(bytes: Seq<u8>, at: int)
    ensures
        be16(bytes, at) == bytes[at] * 0x100 + bytes[at + 1],
        be32(bytes, at) == bytes[at] * 0x100_0000 + bytes[at + 1] * 0x1_0000 + bytes[at + 2]
            * 0x100 + bytes[at + 3],
{
}

/// Reads a big-endian 16-bit number.
pub(crate) fn read_be16(bytes: &[u8], at: usize) -> (value: u16)
    requires
        at + 2 <= bytes@.len(),
    ensures
        value == be16(bytes@, at as int),
{
    (bytes[at] as u16) * 0x100 + (bytes[at + 1] as u16)
}

/// Reads a big-endian 32-bit number.
pub(crate) fn read_be32(bytes: &[u8], at: usize) -> (value: u32)
    requires
        at + 4 <= bytes@.len(),
    ensures
        value == be32(bytes@, at as int),
{
    (bytes[at] as u32) * 0x100_0000 + (bytes[at + 1] as u32) * 0x1_0000 + (bytes[at + 2] as u32)
        * 0x100 + (bytes[at + 3] as u32)
}

} // verus!
