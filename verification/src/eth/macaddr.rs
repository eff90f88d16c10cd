//! Hardware addresses.

use vstd::prelude::*;
use vstd::std_specs::cmp::PartialEqSpecImpl;

verus! {

/// The bytes of a hardware address.
pub const MAC_ADDR_LEN: usize = 6;

/// A hardware address: [`MAC_ADDR_LEN`] bytes of a frame.
#[derive(Debug)]
pub struct MacAddr<'a> {
    raw: &'a [u8],
}

impl<'a> View for MacAddr<'a> {
    type V = Seq<u8>;

    /// The bytes of the address, in the order of the frame.
    closed spec fn view(&self) -> Seq<u8> {
        self.raw@
    }
}

impl<'a> PartialEq for MacAddr<'a> {
    fn eq(&self, other: &MacAddr<'a>) -> (equal: bool)
        ensures
            equal == (self@ == other@),
    {
        proof {
            use_type_invariant(self);
            use_type_invariant(other);
        }
        let mut i: usize = 0;
        while i < MAC_ADDR_LEN
            invariant
                i <= MAC_ADDR_LEN,
                self.raw@.len() == MAC_ADDR_LEN,
                other.raw@.len() == MAC_ADDR_LEN,
                forall|j: int| 0 <= j < i ==> self.raw@[j] == other.raw@[j],
            decreases MAC_ADDR_LEN - i,
        {
            if self.raw[i] != other.raw[i] {
                return false;
            }
            i += 1;
        }
        assert(self.raw@ =~= other.raw@);
        true
    }
}

impl<'a> PartialEqSpecImpl for MacAddr<'a> {
    open spec fn obeys_eq_spec() -> bool {
        true
    }

    /// Two addresses are equal where their bytes are.
    open spec fn eq_spec(&self, other: &MacAddr<'a>) -> bool {
        self@ == other@
    }
}

impl<'a> MacAddr<'a> {
    #[verifier::type_invariant]
    spec fn holds_an_address(self) -> bool {
        self.raw@.len() == MAC_ADDR_LEN
    }

    /// The address in the first [`MAC_ADDR_LEN`] bytes of `raw`.
    pub fn from(raw: &'a [u8]) -> (addr: MacAddr<'a>)
        requires
            raw@.len() >= MAC_ADDR_LEN,
        ensures
            addr@ == raw@.subrange(0, MAC_ADDR_LEN as int),
    {
        MacAddr { raw: &raw[0..MAC_ADDR_LEN] }
    }

    /// The bytes of the address.
    pub fn octets(&self) -> (octets: &'a [u8])
        ensures
            octets@ == self@,
            octets@.len() == MAC_ADDR_LEN,
    {
        proof {
            use_type_invariant(self);
        }
        self.raw
    }
}

} // verus!
