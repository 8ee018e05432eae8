//! IPv4 addresses as the lease logic sees them.
use vstd::prelude::*;

verus! {

/// An IPv4 address, held as its 32-bit value in network order
/// (the first octet is the most significant).
#[derive(Clone, Copy, Debug, PartialEq, Eq, Structural)]
pub struct Ipv4Address {
    pub bits: u32,
}

/// The 32-bit value of the address `a.b.c.d`.
pub open spec fn octets_value(a: u8, b: u8, c: u8, d: u8) -> int {
    a as int * 0x1000000 + b as int * 0x10000 + c as int * 0x100 + d as int
}

impl Ipv4Address {
    /// The address `a.b.c.d`.
    pub fn new(a: u8, b: u8, c: u8, d: u8) -> (r: Ipv4Address)
        ensures
            r.bits == octets_value(a, b, c, d),
    {
        let bits: u32 = (a as u32) * 0x1000000 + (b as u32) * 0x10000 + (c as u32) * 0x100 + (
        d as u32);
        Ipv4Address { bits }
    }

    /// `0.0.0.0`: no address.
    pub fn unspecified() -> (r: Ipv4Address)
        ensures
            r.bits == 0,
    {
        Ipv4Address { bits: 0 }
    }

    /// `255.255.255.255`: every host of the local network.
    pub fn broadcast() -> (r: Ipv4Address)
        ensures
            r.bits == 0xffff_ffff,
    {
        Ipv4Address { bits: 0xffff_ffff }
    }
}

} // verus!
