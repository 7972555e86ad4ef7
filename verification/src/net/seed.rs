//! The nodes through which a new node finds its first peers.
use crate::net::error::NetError;
use crate::text::{host_and_port_read_back, host_port, host_port_text, value};
use crate::types::{ipv4_bits, IpAddr, Network, SocketAddr, SEED_NODE_PORT};
use vstd::prelude::*;

verus! {

/// Name and port of the alphanet seed node.
pub const ALPHANET_SEED_NODE_ADDR: (&'static str, u16) = (
    "seed.alpha.ecash.eu.com",
    SEED_NODE_PORT,
);

/// The seed node at `a.b.c.d`.
pub open spec fn seed_at(a: u8, b: u8, c: u8, d: u8) -> SocketAddr {
    SocketAddr::V4 { ip: ipv4_bits(a, b, c, d) as u32, port: SEED_NODE_PORT }
}

/// Seed nodes of the signet: the mining server, and thunder.bip300.xyz.
pub open spec fn signet_seeds() -> Seq<SocketAddr> {
    seq![seed_at(172, 105, 148, 135), seed_at(95, 217, 243, 12)]
}

/// Seed node of the forknet: explorer.bip300.xyz.
pub open spec fn forknet_seeds() -> Seq<SocketAddr> {
    seq![seed_at(157, 180, 8, 224)]
}

/// Seed nodes of the signet.
pub fn signet_seed_node_addrs() -> (r: Vec<SocketAddr>)
    ensures
        r@ == signet_seeds(),
{
    let mining_server = SocketAddr::new(IpAddr::v4(172, 105, 148, 135), SEED_NODE_PORT);
    let bip300_xyz = SocketAddr::new(IpAddr::v4(95, 217, 243, 12), SEED_NODE_PORT);
    vec![mining_server, bip300_xyz]
}

/// Seed nodes of the forknet.
pub fn forknet_seed_node_addrs() -> (r: Vec<SocketAddr>)
    ensures
        r@ == forknet_seeds(),
{
    vec![SocketAddr::new(IpAddr::v4(157, 180, 8, 224), SEED_NODE_PORT)]
}

/// Name and port of the seed node that the network resolves at every dial.
pub open spec fn seed_name(network: Network) -> Option<(&'static str, u16)> {
    match network {
        Network::Alphanet => Some(ALPHANET_SEED_NODE_ADDR),
        Network::Signet | Network::Regtest | Network::Forknet => None,
    }
}

/// Name of the seed node that the network resolves at every dial.
pub fn seed_node_name(network: Network) -> (r: Option<(&'static str, u16)>)
    ensures
        r == seed_name(network),
{
    match network {
        Network::Alphanet => Some(ALPHANET_SEED_NODE_ADDR),
        Network::Signet | Network::Regtest | Network::Forknet => None,
    }
}

/// Seed nodes that are dialed beside the known peers.
#[derive(Debug)]
pub enum SeedNodes {
    /// Those at these addresses.
    Known(Vec<SocketAddr>),
    /// Those at the addresses that `host` has now.
    Named { host: &'static str, port: u16 },
}

/// What a lookup of `host:port` that came back as `looked_up` yields.
pub open spec fn resolves_to(
    host: Seq<char>,
    port: u16,
    looked_up: Result<Vec<SocketAddr>, String>,
    r: Result<Vec<SocketAddr>, NetError>,
) -> bool {
    match looked_up {
        Ok(addrs) => r == Ok::<Vec<SocketAddr>, NetError>(addrs),
        Err(reason) => {
            &&& r matches Err(NetError::ResolveSeed { address, source })
            &&& address@ == host_port(host, port)
            &&& source == reason
        },
    }
}

/// The addresses of the seed node named `host`, or an error that names it.
pub fn resolved_seed_addrs(
    host: &str,
    port: u16,
    looked_up: Result<Vec<SocketAddr>, String>,
) -> (r: Result<Vec<SocketAddr>, NetError>)
    ensures
        resolves_to(host@, port, looked_up, r),
{
    match looked_up {
        Ok(addrs) => Ok(addrs),
        Err(source) => Err(NetError::ResolveSeed { address: host_port_text(host, port), source }),
    }
}

/// What the seed nodes of a network are, where `resolve` looks names up.
pub open spec fn seeds_of<F: FnOnce(&str, u16) -> Result<Vec<SocketAddr>, String>>(
    network: Network,
    resolve: F,
    r: Result<Vec<SocketAddr>, NetError>,
) -> bool {
    match network {
        Network::Signet => r matches Ok(addrs) && addrs@ == signet_seeds(),
        Network::Regtest => r matches Ok(addrs) && addrs@ == Seq::<SocketAddr>::empty(),
        Network::Forknet => r matches Ok(addrs) && addrs@ == forknet_seeds(),
        Network::Alphanet => exists|looked_up: Result<Vec<SocketAddr>, String>|
            {
                &&& #[trigger] call_ensures(
                    resolve,
                    (ALPHANET_SEED_NODE_ADDR.0, ALPHANET_SEED_NODE_ADDR.1),
                    looked_up,
                )
                &&& resolves_to(
                    ALPHANET_SEED_NODE_ADDR.0@,
                    ALPHANET_SEED_NODE_ADDR.1,
                    looked_up,
                    r,
                )
            },
    }
}

/// Seed nodes of a network. Only the alphanet looks a name up, by `resolve`.
pub fn seed_node_addrs<F: FnOnce(&str, u16) -> Result<Vec<SocketAddr>, String>>(
    network: Network,
    resolve: F,
) -> (r: Result<Vec<SocketAddr>, NetError>)
    requires
        network == Network::Alphanet ==> call_requires(
            resolve,
            (ALPHANET_SEED_NODE_ADDR.0, ALPHANET_SEED_NODE_ADDR.1),
        ),
    ensures
        seeds_of(network, resolve, r),
{
    match network {
        Network::Signet => Ok(signet_seed_node_addrs()),
        Network::Regtest => Ok(Vec::new()),
        Network::Forknet => Ok(forknet_seed_node_addrs()),
        Network::Alphanet => {
            let (host, port) = ALPHANET_SEED_NODE_ADDR;
            let looked_up = resolve(host, port);
            resolved_seed_addrs(host, port, looked_up)
        },
    }
}

/// Every seed node, fixed or looked up by name, listens on the port of the sidechain.
pub proof fn seeds_use_the_sidechain_port(network: Network, i: int)
    ensures
        0 <= i < signet_seeds().len() ==> signet_seeds()[i].port_of() == 4098,
        0 <= i < forknet_seeds().len() ==> forknet_seeds()[i].port_of() == 4098,
        seed_name(network) matches Some((_, port)) ==> port == 4098,
{
}

/// No seed node is at an unspecified address, so each of them can be dialed.
pub proof fn seeds_are_specified(i: int)
    ensures
        0 <= i < signet_seeds().len() ==> !signet_seeds()[i].ip_of().unspecified(),
        0 <= i < forknet_seeds().len() ==> !forknet_seeds()[i].ip_of().unspecified(),
{
}

/// A lookup is handed on as it came back: its addresses, each of them and in order, or an
/// error that holds the reason and names the seed node as `host:port`.
pub proof fn a_lookup_is_handed_on(
    host: Seq<char>,
    port: u16,
    looked_up: Result<Vec<SocketAddr>, String>,
    r: Result<Vec<SocketAddr>, NetError>,
)
    requires
        resolves_to(host, port, looked_up, r),
    ensures
        r is Ok <==> looked_up is Ok,
        looked_up matches Ok(found) ==> (r matches Ok(addrs) && addrs@ == found@),
        looked_up matches Err(reason) ==> {
            &&& r matches Err(NetError::ResolveSeed { address, source })
            &&& source@ == reason@
            &&& address@.take(host.len() as int) == host
            &&& address@[host.len() as int] == ':'
            &&& value(address@.skip(host.len() as int + 1)) == port
        },
{
    host_and_port_read_back(host, port);
}

/// On a network other than the alphanet the seed nodes are fixed, whatever a lookup would
/// say, and finding them never fails. On the alphanet it fails only as the lookup does, with
/// an error that names the seed node.
pub proof fn only_the_alphanet_depends_on_a_lookup<F, G>(
    network: Network,
    resolve: F,
    other: G,
    r: Result<Vec<SocketAddr>, NetError>,
    s: Result<Vec<SocketAddr>, NetError>,
) where
    F: FnOnce(&str, u16) -> Result<Vec<SocketAddr>, String>,
    G: FnOnce(&str, u16) -> Result<Vec<SocketAddr>, String>,

    requires
        seeds_of(network, resolve, r),
        seeds_of(network, other, s),
    ensures
        network != Network::Alphanet ==> {
            &&& r matches Ok(addrs)
            &&& s matches Ok(others)
            &&& addrs@ == others@
        },
        network == Network::Signet ==> r->Ok_0@ == seq![
            SocketAddr::V4 { ip: 2892600455, port: 4098 },
            SocketAddr::V4 { ip: 1608119052, port: 4098 },
        ],
        network == Network::Forknet ==> r->Ok_0@ == seq![
            SocketAddr::V4 { ip: 2645821664, port: 4098 },
        ],
        network == Network::Regtest ==> r->Ok_0@.len() == 0,
        network == Network::Alphanet ==> exists|looked_up: Result<Vec<SocketAddr>, String>|
            {
                &&& #[trigger] call_ensures(
                    resolve,
                    (ALPHANET_SEED_NODE_ADDR.0, ALPHANET_SEED_NODE_ADDR.1),
                    looked_up,
                )
                &&& r is Ok <==> looked_up is Ok
                &&& looked_up matches Ok(found) ==> r->Ok_0@ == found@
                &&& looked_up is Err ==> r->Err_0 is ResolveSeed
            },
{
    assert(ipv4_bits(172, 105, 148, 135) == 2892600455);
    assert(ipv4_bits(95, 217, 243, 12) == 1608119052);
    assert(ipv4_bits(157, 180, 8, 224) == 2645821664);
}

/// Only the alphanet has a seed node name, under the port of the sidechain.
pub proof fn only_the_alphanet_has_a_seed_node_name(network: Network)
    ensures
        seed_name(network) is Some <==> network == Network::Alphanet,
        seed_name(network) matches Some((host, port)) ==> host@ == "seed.alpha.ecash.eu.com"@
            && port == 4098,
{
}

} // verus!
