//! Why a network operation fails.
use crate::types::{IpAddr, SocketAddr};
use vstd::prelude::*;

verus! {

/// Failure of a call into the peer database.
#[derive(Debug)]
pub struct DbError {
    pub message: String,
}

/// Failure to begin a connection.
#[derive(Debug)]
pub enum ConnectError {
    /// The endpoint cannot reach addresses of this kind.
    InvalidRemoteAddress(SocketAddr),
    /// Any other reason.
    Other(String),
}

/// A connection to the address exists already.
#[derive(Clone, Copy, Debug, PartialEq, Eq, Structural)]
pub struct AlreadyConnected(pub SocketAddr);

/// Why an operation on the peers of a node fails.
#[derive(Debug)]
pub enum NetError {
    /// A connection to the peer exists already.
    AlreadyConnected(AlreadyConnected),
    /// The connection could not begin.
    Connect(ConnectError),
    /// The peer database failed.
    Db(DbError),
    /// No connection to the peer exists.
    MissingPeerConnection(SocketAddr),
    /// The name of a seed node has no address.
    ResolveSeed { address: String, source: String },
    /// The address `0.0.0.0` or `::` names no peer.
    UnspecfiedPeerIP(IpAddr),
}

/// Why an incoming connection is not accepted.
#[derive(Debug)]
pub enum AcceptConnection {
    /// A connection to the peer was added meanwhile.
    AlreadyConnected(AlreadyConnected),
    /// The handshake failed.
    Connection { error: String, remote_address: SocketAddr },
    /// The peer database failed.
    Db(DbError),
    /// The server endpoint accepts no more connections.
    ServerEndpointClosed,
}

} // verus!
