//! IPv4 addresses as plain integers.

use vstd::prelude::*;

verus! {

/// An IPv4 address, held as the 32-bit integer whose most significant byte is the first octet.
///
/// Addresses are ordered and counted through `bits`: `192.168.2.11` is the successor of
/// `192.168.2.10`.
#[derive(Clone, Copy, Debug, PartialEq, Eq, Structural)]
pub struct Ipv4Addr {
    pub bits: u32,
}

/// The integer that stands for the dotted address `a.b.c.d`.
pub open spec fn bits_of_octets(a: u8, b: u8, c: u8, d: u8) -> int {
    a * 0x100_0000 + b * 0x1_0000 + c * 0x100 + d
}

impl Ipv4Addr {
    /// The address `a.b.c.d`.
    pub fn new(a: u8, b: u8, c: u8, d: u8) -> (ip: Ipv4Addr)
        ensures
            ip.bits == bits_of_octets(a, b, c, d),
    {
        Ipv4Addr { bits: (a as u32) * 0x100_0000 + (b as u32) * 0x1_0000 + (c as u32) * 0x100 + (d as u32) }
    }

    /// The address whose integer value is `bits`.
    pub fn from_bits(bits: u32) -> (ip: Ipv4Addr)
        ensures
            ip.bits == bits,
    {
        Ipv4Addr { bits }
    }

    /// The integer value of the address.
    pub fn to_bits(&self) -> (bits: u32)
        ensures
            bits == self.bits,
    {
        self.bits
    }

    /// The four octets, first octet first.
    pub fn octets(&self) -> (o: [u8; 4])
        ensures
            bits_of_octets(o[0], o[1], o[2], o[3]) == self.bits,
    {
        let b: u32 = self.bits;
        [(b / 0x100_0000) as u8, ((b / 0x1_0000) % 0x100) as u8, ((b / 0x100) % 0x100) as u8, (b % 0x100) as u8]
    }

    /// Whether this is `0.0.0.0`, the address that stands for "none".
    pub fn is_unspecified(&self) -> (r: bool)
        ensures
            r <==> self.bits == 0,
    {
        self.bits == 0
    }
}

/// Two addresses with the same octets are the same address.
pub proof fn octets_determine_address(a: u8, b: u8, c: u8, d: u8, e: u8, f: u8, g: u8, h: u8)
    requires
        bits_of_octets(a, b, c, d) == bits_of_octets(e, f, g, h),
    ensures
        a == e && b == f && c == g && d == h,
{
}

} // verus!
