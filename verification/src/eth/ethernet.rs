//! The Ethernet header.

use crate::endian::{be16, read_be16};
use crate::eth::macaddr::{MacAddr, MAC_ADDR_LEN};
use vstd::prelude::*;

verus! {

/// The bytes of the type field.
pub const ETH_TYPE_LEN: usize = 2;

/// Where the source address starts.
pub const SOURCE_MAC_OFFSET: usize = MAC_ADDR_LEN;

/// Where the type field starts.
pub const ETH_TYPE_OFFSET: usize = MAC_ADDR_LEN * 2;

/// The bytes of the shortest header: two addresses and the type field.
pub const ETH_HEADER_MIN_SIZE: usize = MAC_ADDR_LEN * 2 + ETH_TYPE_LEN;

/// What an Ethernet frame carries, as far as this library tells it apart.
#[derive(Debug, Clone, Copy, PartialEq, Eq, Structural)]
pub enum EthernetType {
    Unknown,
    Ipv4,
    Arp,
    Dot1qVlanTag,
    QinQVlanTag,
}

impl EthernetType {
    /// The number that stands for the type in a frame.
    pub open spec fn spec_code(self) -> u16 {
        match self {
            EthernetType::Unknown => 0x0,
            EthernetType::Ipv4 => 0x0800,
            EthernetType::Arp => 0x0806,
            EthernetType::Dot1qVlanTag => 0x8100,
            EthernetType::QinQVlanTag => 0x9100,
        }
    }

    /// The number that stands for the type in a frame.
    #[verifier::when_used_as_spec(spec_code)]
    pub fn code(self) -> (code: u16)
        ensures
            code == self.spec_code(),
    {
        match self {
            EthernetType::Unknown => 0x0,
            EthernetType::Ipv4 => 0x0800,
            EthernetType::Arp => 0x0806,
            EthernetType::Dot1qVlanTag => 0x8100,
            EthernetType::QinQVlanTag => 0x9100,
        }
    }

    /// The type that `value` stands for, if it stands for one.
    pub open spec fn of_code(value: u16) -> Option<EthernetType> {
        if value == 0x0 {
            Some(EthernetType::Unknown)
        } else if value == 0x0800 {
            Some(EthernetType::Ipv4)
        } else if value == 0x0806 {
            Some(EthernetType::Arp)
        } else if value == 0x8100 {
            Some(EthernetType::Dot1qVlanTag)
        } else if value == 0x9100 {
            Some(EthernetType::QinQVlanTag)
        } else {
            None
        }
    }

    /// The type that the first two bytes of `bytes` name, read as a
    /// big-endian number; `Unknown` where the number stands for no type.
    pub open spec fn of_bytes(bytes: Seq<u8>) -> EthernetType {
        match Self::of_code(be16(bytes, 0)) {
            Some(eth_type) => eth_type,
            None => EthernetType::Unknown,
        }
    }

    /// The type that `value` stands for, if it stands for one.
    pub fn from_u16(value: u16) -> (eth_type: Option<EthernetType>)
        ensures
            eth_type == Self::of_code(value),
    {
        if value == 0x0 {
            Some(EthernetType::Unknown)
        } else if value == 0x0800 {
            Some(EthernetType::Ipv4)
        } else if value == 0x0806 {
            Some(EthernetType::Arp)
        } else if value == 0x8100 {
            Some(EthernetType::Dot1qVlanTag)
        } else if value == 0x9100 {
            Some(EthernetType::QinQVlanTag)
        } else {
            None
        }
    }

    /// The type that the first two bytes of `bytes` name.
    pub fn from(bytes: &[u8]) -> (eth_type: EthernetType)
        requires
            bytes@.len() >= ETH_TYPE_LEN,
        ensures
            eth_type == Self::of_bytes(bytes@),
    {
        match EthernetType::from_u16(read_be16(bytes, 0)) {
            Some(eth_type) => eth_type,
            None => EthernetType::Unknown,
        }
    }
}

/// Every type is found again from its number, and a number that stands for
/// a type is the number of that type.
pub proof fn lemma_type_codes_are_distinct(eth_type: EthernetType, value: u16)
    ensures
        EthernetType::of_code(eth_type.spec_code()) == Some(eth_type),
        EthernetType::of_code(value) matches Some(found) ==> found.spec_code() == value,
{
}

/// An Ethernet header at the start of a frame. It holds at least
/// [`ETH_HEADER_MIN_SIZE`] bytes.
#[derive(Debug)]
pub struct EthernetHeader<'a> {
    raw: &'a [u8],
}

impl<'a> View for EthernetHeader<'a> {
    type V = Seq<u8>;

    /// The bytes of the frame, header first.
    closed spec fn view(&self) -> Seq<u8> {
        self.raw@
    }
}

impl<'a> EthernetHeader<'a> {
    #[verifier::type_invariant]
    spec fn holds_a_header(self) -> bool {
        self.raw@.len() >= ETH_HEADER_MIN_SIZE
    }

    /// The header of the frame `raw`, unless the frame is too short to hold
    /// one.
    pub fn new(raw: &'a [u8]) -> (header: Option<Self>)
        ensures
            header is Some <==> raw@.len() >= ETH_HEADER_MIN_SIZE,
            header matches Some(h) ==> h@ == raw@,
    {
        if raw.len() < ETH_HEADER_MIN_SIZE {
            return None;
        }
        Some(EthernetHeader { raw })
    }

    /// The address that the frame is sent to: the first six bytes.
    pub fn dst(&self) -> (addr: MacAddr<'a>)
        ensures
            self@.len() >= ETH_HEADER_MIN_SIZE,
            addr@ == self@.subrange(0, MAC_ADDR_LEN as int),
    {
        proof {
            use_type_invariant(self);
        }
        MacAddr::from(self.raw)
    }

    /// The address that the frame comes from: the six bytes after the
    /// destination.
    pub fn src(&self) -> (addr: MacAddr<'a>)
        ensures
            self@.len() >= ETH_HEADER_MIN_SIZE,
            addr@ == self@.subrange(SOURCE_MAC_OFFSET as int, ETH_TYPE_OFFSET as int),
    {
        proof {
            use_type_invariant(self);
        }
        let addr = MacAddr::from(&self.raw[SOURCE_MAC_OFFSET..ETH_TYPE_OFFSET]);
        assert(addr@ =~= self@.subrange(SOURCE_MAC_OFFSET as int, ETH_TYPE_OFFSET as int));
        addr
    }

    /// What the frame carries: the two bytes after the addresses, read as a
    /// big-endian number.
    pub fn eth_type(&self) -> (eth_type: EthernetType)
        ensures
            self@.len() >= ETH_HEADER_MIN_SIZE,
            eth_type == EthernetType::of_bytes(
                self@.subrange(ETH_TYPE_OFFSET as int, ETH_TYPE_OFFSET + ETH_TYPE_LEN),
            ),
    {
        proof {
            use_type_invariant(self);
        }
        EthernetType::from(&self.raw[ETH_TYPE_OFFSET..ETH_TYPE_OFFSET + ETH_TYPE_LEN])
    }
}

} // verus!
