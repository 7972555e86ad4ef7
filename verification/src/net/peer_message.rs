//! What goes over a peer connection.
use crate::types::Network;
use vstd::prelude::*;

verus! {

/// Bytes that begin every message between peers of one network.
pub type MagicBytes = [u8; 4];

/// Byte by which the magic bytes of the networks differ.
pub open spec fn network_byte(network: Network) -> u8 {
    match network {
        Network::Regtest => 0,
        Network::Signet => 1,
        Network::Forknet => 2,
        Network::Alphanet => 3,
    }
}

/// Magic bytes of a network.
pub open spec fn network_magic(network: Network) -> Seq<u8> {
    seq![0x8du8, 0x19u8, 0x28u8, network_byte(network)]
}

/// Magic bytes of a network.
pub fn magic_bytes(network: Network) -> (r: MagicBytes)
    ensures
        r@ == network_magic(network),
{
    let last: u8 = match network {
        Network::Regtest => 0,
        Network::Signet => 1,
        Network::Forknet => 2,
        Network::Alphanet => 3,
    };
    [0x8d, 0x19, 0x28, last]
}

/// Peers of two different networks never begin their messages alike.
pub proof fn magic_distinguishes_networks(a: Network, b: Network)
    ensures
        network_magic(a) == network_magic(b) <==> a == b,
{
    assert(network_magic(a)[3] == network_byte(a));
    assert(network_magic(b)[3] == network_byte(b));
}

/// Request that a peer takes a transaction into its mempool.
#[derive(Debug)]
pub struct PushTransactionRequest<Tx> {
    pub transaction: Box<Tx>,
}

/// A request to a peer.
#[derive(Debug)]
pub enum PeerRequest<Tx> {
    PushTransaction(PushTransactionRequest<Tx>),
}

/// Message to the task that drives a connection.
#[derive(Debug)]
pub enum PeerConnectionMessage<Tx, O> {
    /// Send the request to the peer.
    Request(PeerRequest<Tx>),
    /// Anything else that the task understands.
    Other(O),
}

/// Whether `message` asks the peer to take a copy of `tx`.
pub open spec fn pushes<Tx: Clone, O>(message: PeerConnectionMessage<Tx, O>, tx: Tx) -> bool {
    &&& message matches PeerConnectionMessage::Request(PeerRequest::PushTransaction(request))
    &&& cloned(tx, *request.transaction)
}

/// The message by which `tx` is pushed to a peer.
pub fn push_message<Tx: Clone, O>(tx: &Tx) -> (message: PeerConnectionMessage<Tx, O>)
    ensures
        pushes(message, *tx),
{
    let transaction = tx.clone();
    PeerConnectionMessage::Request(
        PeerRequest::PushTransaction(
            PushTransactionRequest { transaction: Box::new(transaction) },
        ),
    )
}

/// The magic bytes of a network are three that all networks share, and one of its own.
pub proof fn magic_bytes_share_their_beginning(network: Network, other: Network)
    ensures
        network_magic(network).len() == 4,
        network_magic(network).take(3) == seq![0x8du8, 0x19u8, 0x28u8],
        network_magic(network).take(3) == network_magic(other).take(3),
        network == Network::Regtest ==> network_magic(network)[3] == 0,
        network == Network::Signet ==> network_magic(network)[3] == 1,
        network == Network::Forknet ==> network_magic(network)[3] == 2,
        network == Network::Alphanet ==> network_magic(network)[3] == 3,
{
    assert(network_magic(network).take(3) =~= seq![0x8du8, 0x19u8, 0x28u8]);
    assert(network_magic(other).take(3) =~= seq![0x8du8, 0x19u8, 0x28u8]);
}

} // verus!
