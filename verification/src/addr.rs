//! Internet addresses as the numbers an archive stores.

use vstd::prelude::*;

verus! {

/// An IPv4 address. The most significant byte of `bits` is the first octet.
#[derive(Debug, Clone, Copy, PartialEq, Eq)]
pub struct Ipv4Address {
    pub bits: u32,
}

/// An IPv6 address. The most significant byte of `bits` is the first octet.
#[derive(Debug, Clone, Copy, PartialEq, Eq)]
pub struct Ipv6Address {
    pub bits: u128,
}

/// An address of either family.
#[derive(Debug, Clone, Copy, PartialEq, Eq)]
pub enum IpAddress {
    V4(Ipv4Address),
    V6(Ipv6Address),
}

} // verus!
