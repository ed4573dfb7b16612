use vstd::prelude::*;

pub mod checksum;
pub mod classify;
pub mod packet;
pub mod receive;
pub mod sender;

verus! {

/// The protocol family a probe run operates in: ICMP over IPv4 or
/// ICMPv6 over IPv6.
#[derive(Clone, Copy, PartialEq, Eq, Structural, Debug)]
pub enum Family {
    V4,
    V6,
}

/// A resolved target or source address, as plain bytes in network order.
/// Its variant determines the protocol family of a probe run.
#[derive(Clone, Copy, PartialEq, Eq, Debug)]
pub enum HostAddr {
    V4([u8; 4]),
    V6([u8; 16]),
}

impl HostAddr {
    /// The protocol family an address belongs to.
    pub open spec fn family_spec(self) -> Family {
        match self {
            HostAddr::V4(_) => Family::V4,
            HostAddr::V6(_) => Family::V6,
        }
    }

    /// Resolves the protocol family from a target address: an IPv4 target
    /// is probed with ICMP, an IPv6 target with ICMPv6.
    pub fn family(&self) -> (f: Family)
        ensures
            f == self.family_spec(),
    {
        match self {
            HostAddr::V4(_) => Family::V4,
            HostAddr::V6(_) => Family::V6,
        }
    }
}

} // verus!
