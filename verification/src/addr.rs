//! Internet addresses, by their bits.
use vstd::prelude::*;

verus! {

/// An IPv4 address; the first octet is the most significant byte.
#[derive(Debug, Clone, Copy, PartialEq, Eq, Structural)]
pub struct Ipv4Addr {
    pub bits: u32,
}

/// An IPv6 address; the first segment is the most significant one.
#[derive(Debug, Clone, Copy, PartialEq, Eq, Structural)]
pub struct Ipv6Addr {
    pub bits: u128,
}

/// An IP address of either family.
#[derive(Debug, Clone, Copy, PartialEq, Eq, Structural)]
pub enum IpAddr {
    V4(Ipv4Addr),
    V6(Ipv6Addr),
}

/// An IPv4 address with a port.
#[derive(Debug, Clone, Copy, PartialEq, Eq, Structural)]
pub struct SocketAddrV4 {
    pub ip: Ipv4Addr,
    pub port: u16,
}

/// An IPv6 address with a port, a flow label and a scope.
#[derive(Debug, Clone, Copy, PartialEq, Eq, Structural)]
pub struct SocketAddrV6 {
    pub ip: Ipv6Addr,
    pub port: u16,
    pub flowinfo: u32,
    pub scope_id: u32,
}

/// A socket address of either family.
#[derive(Debug, Clone, Copy, PartialEq, Eq, Structural)]
pub enum SocketAddr {
    V4(SocketAddrV4),
    V6(SocketAddrV6),
}

/// The halves of a connection that a shutdown closes.
#[derive(Debug, Clone, Copy, PartialEq, Eq, Structural)]
pub enum Shutdown {
    Read,
    Write,
    Both,
}

/// `0.0.0.0` with port zero.
pub open spec fn unspecified_v4() -> SocketAddr {
    SocketAddr::V4(SocketAddrV4 { ip: Ipv4Addr { bits: 0 }, port: 0 })
}

/// `[::]` with port zero, without flow label and scope.
pub open spec fn unspecified_v6() -> SocketAddr {
    SocketAddr::V6(SocketAddrV6 { ip: Ipv6Addr { bits: 0 }, port: 0, flowinfo: 0, scope_id: 0 })
}

/// The unspecified address of the family of `addr`, with port zero.
pub open spec fn unspecified_like(addr: SocketAddr) -> SocketAddr {
    if addr is V4 {
        unspecified_v4()
    } else {
        unspecified_v6()
    }
}

impl IpAddr {
    /// `0.0.0.0`.
    pub fn unspecified_v4() -> (ip: IpAddr)
        ensures
            ip == IpAddr::V4(Ipv4Addr { bits: 0 }),
    {
        IpAddr::V4(Ipv4Addr { bits: 0 })
    }

    /// `::`.
    pub fn unspecified_v6() -> (ip: IpAddr)
        ensures
            ip == IpAddr::V6(Ipv6Addr { bits: 0 }),
    {
        IpAddr::V6(Ipv6Addr { bits: 0 })
    }
}

impl SocketAddr {
    /// The address of a port at an IP address; an IPv6 one gets no flow label
    /// and no scope.
    pub fn new(ip: IpAddr, port: u16) -> (addr: SocketAddr)
        ensures
            addr == (match ip {
                IpAddr::V4(ip) => SocketAddr::V4(SocketAddrV4 { ip, port }),
                IpAddr::V6(ip) => SocketAddr::V6(
                    SocketAddrV6 { ip, port, flowinfo: 0, scope_id: 0 },
                ),
            }),
    {
        match ip {
            IpAddr::V4(ip) => SocketAddr::V4(SocketAddrV4 { ip, port }),
            IpAddr::V6(ip) => SocketAddr::V6(SocketAddrV6 { ip, port, flowinfo: 0, scope_id: 0 }),
        }
    }

    /// Whether this is an IPv4 address.
    pub fn is_ipv4(&self) -> (v4: bool)
        ensures
            v4 == (self is V4),
    {
        match self {
            SocketAddr::V4(_) => true,
            SocketAddr::V6(_) => false,
        }
    }

    /// Whether this is an IPv6 address.
    pub fn is_ipv6(&self) -> (v6: bool)
        ensures
            v6 == (self is V6),
    {
        match self {
            SocketAddr::V4(_) => false,
            SocketAddr::V6(_) => true,
        }
    }
}

} // verus!
