//! A node's firewall: the set of IP addresses that may reach it.

use vstd::prelude::*;
use std::collections::HashSet;

verus! {

broadcast use vstd::std_specs::hash::group_hash_axioms;

/// An IP address, held as the number that its octets spell out, the first
/// octet in the highest place.
#[derive(Clone, Copy, Debug, PartialEq, Eq, Structural)]
pub enum IpAddress {
    /// An IPv4 address: four octets.
    V4(u32),
    /// An IPv6 address: sixteen octets.
    V6(u128),
}

impl IpAddress {
    /// The IPv4 address `a.b.c.d`.
    pub fn from_octets(a: u8, b: u8, c: u8, d: u8) -> (ip: IpAddress)
        ensures
            ip == IpAddress::V4((a * 0x100_0000 + b * 0x1_0000 + c * 0x100 + d) as u32),
    {
        let a: u32 = a as u32;
        let b: u32 = b as u32;
        let c: u32 = c as u32;
        let d: u32 = d as u32;
        IpAddress::V4(a * 0x100_0000 + b * 0x1_0000 + c * 0x100 + d)
    }
}

/// Maintains a set of allowed IP addresses for a node.
pub struct NodeFirewall {
    allowed_v4: HashSet<u32>,
    allowed_v6: HashSet<u128>,
}

impl View for NodeFirewall {
    type V = Set<IpAddress>;

    /// The allowed addresses.
    closed spec fn view(&self) -> Set<IpAddress> {
        Set::new(
            |ip: IpAddress|
                match ip {
                    IpAddress::V4(bits) => self.allowed_v4@.contains(bits),
                    IpAddress::V6(bits) => self.allowed_v6@.contains(bits),
                },
        )
    }
}

impl NodeFirewall {
    /// Creates a new firewall with no allowed addresses.
    pub fn new() -> (r: Self)
        ensures
            r@ == Set::<IpAddress>::empty(),
    {
        NodeFirewall { allowed_v4: HashSet::new(), allowed_v6: HashSet::new() }
    }

    /// Allows the given IP address, and reports whether it was not allowed
    /// before. Allowing an address again changes nothing.
    pub fn allow(&mut self, ip: IpAddress) -> (newly: bool)
        ensures
            final(self)@ == old(self)@.insert(ip),
            newly == !old(self)@.contains(ip),
    {
        let newly = match ip {
            IpAddress::V4(bits) => self.allowed_v4.insert(bits),
            IpAddress::V6(bits) => self.allowed_v6.insert(bits),
        };
        newly
    }

    /// Revokes the given IP address. Revoking an address that is not allowed
    /// changes nothing.
    pub fn revoke(&mut self, ip: &IpAddress)
        ensures
            final(self)@ == old(self)@.remove(*ip),
    {
        match ip {
            IpAddress::V4(bits) => {
                self.allowed_v4.remove(bits);
            },
            IpAddress::V6(bits) => {
                self.allowed_v6.remove(bits);
            },
        }
    }

    /// Returns `true` if the IP address is allowed.
    pub fn is_allowed(&self, ip: &IpAddress) -> (r: bool)
        ensures
            r == self@.contains(*ip),
    {
        match ip {
            IpAddress::V4(bits) => self.allowed_v4.contains(bits),
            IpAddress::V6(bits) => self.allowed_v6.contains(bits),
        }
    }
}

} // verus!
