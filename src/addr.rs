use vstd::prelude::*;

verus! {

/// The address family of a socket address.
#[derive(Clone, Copy, Debug, PartialEq, Eq, Structural)]
pub enum Family {
    V4,
    V6,
}

/// An IPv4 or IPv6 socket address, held as plain values.
#[derive(Clone, Copy, Debug, PartialEq, Eq, Structural)]
pub enum SocketAddress {
    /// `ip` is the address as a big-endian number, as `Ipv4Addr::from(u32)` reads it.
    V4 { ip: u32, port: u16 },
    /// `ip` is the address as a big-endian number, as `Ipv6Addr::from(u128)` reads it.
    V6 {
        ip: u128,
        port: u16,
        flowinfo: u32,
        scope_id: u32,
    },
}

/// The family that a socket address belongs to.
pub open spec fn family_of(a: SocketAddress) -> Family {
    match a {
        SocketAddress::V4 { .. } => Family::V4,
        SocketAddress::V6 { .. } => Family::V6,
    }
}

/// The port of a socket address.
pub open spec fn port_of(a: SocketAddress) -> u16 {
    match a {
        SocketAddress::V4 { port, .. } => port,
        SocketAddress::V6 { port, .. } => port,
    }
}

/// The wildcard address of a family, on port 0 (the system picks a port).
pub open spec fn wildcard(f: Family) -> SocketAddress {
    match f {
        Family::V4 => SocketAddress::V4 { ip: 0, port: 0 },
        Family::V6 => SocketAddress::V6 {
            ip: 0,
            port: 0,
            flowinfo: 0,
            scope_id: 0,
        },
    }
}

impl SocketAddress {
    /// The family of this address.
    pub fn family(&self) -> (r: Family)
        ensures
            r == family_of(*self),
    {
        match self {
            SocketAddress::V4 { .. } => Family::V4,
            SocketAddress::V6 { .. } => Family::V6,
        }
    }

    /// The port of this address.
    pub fn port(&self) -> (r: u16)
        ensures
            r == port_of(*self),
    {
        match self {
            SocketAddress::V4 { port, .. } => *port,
            SocketAddress::V6 { port, .. } => *port,
        }
    }
}

/// The wildcard address of the same family as `other`, with port 0: what a
/// socket is bound to when it only needs some local address before a
/// deferred connect.
pub fn inaddr_any(other: &SocketAddress) -> (r: SocketAddress)
    ensures
        r == wildcard(family_of(*other)),
        family_of(r) == family_of(*other),
        port_of(r) == 0,
{
    match other {
        SocketAddress::V4 { .. } => SocketAddress::V4 { ip: 0, port: 0 },
        SocketAddress::V6 { .. } => SocketAddress::V6 {
            ip: 0,
            port: 0,
            flowinfo: 0,
            scope_id: 0,
        },
    }
}

} // verus!
