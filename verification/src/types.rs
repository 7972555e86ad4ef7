//! Addresses, networks and what the node reports of a peer.
use vstd::prelude::*;

verus! {

/// Number of the sidechain that the node serves.
pub const THIS_SIDECHAIN: u8 = 98;

/// Port on which the seed nodes of this sidechain listen.
pub const SEED_NODE_PORT: u16 = 4000 + THIS_SIDECHAIN as u16;

/// The networks that a node can join.
#[derive(Clone, Copy, Debug, PartialEq, Eq, Structural)]
pub enum Network {
    Alphanet,
    Forknet,
    Regtest,
    Signet,
}

/// An IP address, as the integer that its octets form in network order.
#[derive(Clone, Copy, Debug, PartialEq, Eq, Structural)]
pub enum IpAddr {
    V4(u32),
    V6(u128),
}

/// Integer that four octets form in network order.
pub open spec fn ipv4_bits(a: u8, b: u8, c: u8, d: u8) -> int {
    a * 0x1000000 + b * 0x10000 + c * 0x100 + d
}

impl IpAddr {
    /// The address `a.b.c.d`.
    pub fn v4(a: u8, b: u8, c: u8, d: u8) -> (ip: IpAddr)
        ensures
            ip matches IpAddr::V4(bits) && bits == ipv4_bits(a, b, c, d),
    {
        IpAddr::V4(a as u32 * 0x1000000 + b as u32 * 0x10000 + c as u32 * 0x100 + d as u32)
    }

    /// Whether every bit of the address is zero: `0.0.0.0` or `::`.
    pub open spec fn unspecified(self) -> bool {
        match self {
            IpAddr::V4(bits) => bits == 0,
            IpAddr::V6(bits) => bits == 0,
        }
    }

    /// Whether the address is the unspecified one of its family.
    pub fn is_unspecified(&self) -> (r: bool)
        ensures
            r == self.unspecified(),
    {
        match self {
            IpAddr::V4(bits) => *bits == 0,
            IpAddr::V6(bits) => *bits == 0,
        }
    }
}

/// Address of a peer. Two addresses are the same peer only if every field agrees.
#[derive(Clone, Copy, Debug, PartialEq, Eq, Structural)]
#[allow(inconsistent_fields)]
pub enum SocketAddr {
    V4 { ip: u32, port: u16 },
    V6 { ip: u128, port: u16, flowinfo: u32, scope_id: u32 },
}

impl SocketAddr {
    /// The address `ip:port`, with no flow information and no scope.
    pub open spec fn of(ip: IpAddr, port: u16) -> SocketAddr {
        match ip {
            IpAddr::V4(ip) => SocketAddr::V4 { ip, port },
            IpAddr::V6(ip) => SocketAddr::V6 { ip, port, flowinfo: 0, scope_id: 0 },
        }
    }

    /// The address `ip:port`, with no flow information and no scope.
    pub fn new(ip: IpAddr, port: u16) -> (addr: SocketAddr)
        ensures
            addr == SocketAddr::of(ip, port),
    {
        match ip {
            IpAddr::V4(ip) => SocketAddr::V4 { ip, port },
            IpAddr::V6(ip) => SocketAddr::V6 { ip, port, flowinfo: 0, scope_id: 0 },
        }
    }

    /// The IP address of the peer.
    pub open spec fn ip_of(self) -> IpAddr {
        match self {
            SocketAddr::V4 { ip, port: _ } => IpAddr::V4(ip),
            SocketAddr::V6 { ip, port: _, flowinfo: _, scope_id: _ } => IpAddr::V6(ip),
        }
    }

    /// The port of the peer.
    pub open spec fn port_of(self) -> u16 {
        match self {
            SocketAddr::V4 { ip: _, port } => port,
            SocketAddr::V6 { ip: _, port, flowinfo: _, scope_id: _ } => port,
        }
    }

    /// The IP address of the peer.
    pub fn ip(&self) -> (ip: IpAddr)
        ensures
            ip == self.ip_of(),
    {
        match self {
            SocketAddr::V4 { ip, port: _ } => IpAddr::V4(*ip),
            SocketAddr::V6 { ip, port: _, flowinfo: _, scope_id: _ } => IpAddr::V6(*ip),
        }
    }

    /// The port of the peer.
    pub fn port(&self) -> (port: u16)
        ensures
            port == self.port_of(),
    {
        match self {
            SocketAddr::V4 { ip: _, port } => *port,
            SocketAddr::V6 { ip: _, port, flowinfo: _, scope_id: _ } => *port,
        }
    }
}

/// How far a connection has come.
#[derive(Clone, Copy, Debug, PartialEq, Eq, Structural)]
pub enum PeerConnectionStatus {
    /// Dialed, but nothing was exchanged yet.
    Connecting,
    /// Messages flow.
    Connected,
}

/// What the node reports of an active peer.
#[derive(Clone, Copy, Debug, PartialEq, Eq, Structural)]
pub struct Peer {
    pub address: SocketAddr,
    pub status: PeerConnectionStatus,
}

/// The octets of an address stand in its bits in network order: the first one weighs most,
/// and each of them leaves less than its own weight to those behind it.
pub proof fn octets_stand_in_network_order(a: u8, b: u8, c: u8, d: u8)
    ensures
        ({
            let after_a = ipv4_bits(a, b, c, d) - a * 0x1000000;
            let after_b = after_a - b * 0x10000;
            let after_c = after_b - c * 0x100;
            &&& 0 <= after_a < 0x1000000
            &&& 0 <= after_b < 0x10000
            &&& 0 <= after_c < 0x100
            &&& after_c == d
        }),
{
}

/// Each family has one unspecified address: the one without a bit.
pub proof fn only_zero_is_unspecified(ip: IpAddr)
    ensures
        ip.unspecified() <==> ip == IpAddr::V4(0) || ip == IpAddr::V6(0),
{
}

/// An address is its IP address and its port, and what an address of the sixth version has
/// beyond them.
pub proof fn an_address_reads_back(ip: IpAddr, port: u16, bits: u32, wide: u128, flow: u32, scope: u32)
    ensures
        SocketAddr::of(ip, port).ip_of() == ip,
        SocketAddr::of(ip, port).port_of() == port,
        SocketAddr::of(IpAddr::V4(bits), port) == (SocketAddr::V4 { ip: bits, port }),
        SocketAddr::of(IpAddr::V6(wide), port) == (SocketAddr::V6 {
            ip: wide,
            port,
            flowinfo: 0,
            scope_id: 0,
        }),
        (SocketAddr::V4 { ip: bits, port }).ip_of() == IpAddr::V4(bits),
        (SocketAddr::V4 { ip: bits, port }).port_of() == port,
        (SocketAddr::V6 { ip: wide, port, flowinfo: flow, scope_id: scope }).ip_of() == IpAddr::V6(
            wide,
        ),
        (SocketAddr::V6 { ip: wide, port, flowinfo: flow, scope_id: scope }).port_of() == port,
{
}

} // verus!
