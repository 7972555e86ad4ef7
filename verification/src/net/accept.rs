//! How a connection that a peer opens is accepted.
use crate::net::connect::{PeerRecord, PeerStart};
use crate::net::error::{AcceptConnection, AlreadyConnected};
use crate::net::peer_message::MagicBytes;
use crate::net::peers::{added, Net, PeerConnectionHandle, PeerInfoForward};
use crate::types::SocketAddr;
use vstd::prelude::*;

verus! {

/// Code with which a duplicate connection is closed.
pub const REFUSAL_CODE: u32 = 1;

/// Reason with which a duplicate connection is closed.
pub const REFUSAL_REASON: &'static str = "already connected";

/// What the server endpoint yields.
pub enum Incoming {
    /// The endpoint accepts no more connections.
    EndpointClosed,
    /// The handshake with the peer failed.
    HandshakeFailed { error: String, remote_address: SocketAddr },
    /// A connection from the peer at `addr` is established.
    Established { addr: SocketAddr },
}

/// An established connection that is not yet admitted.
pub struct Admission {
    addr: SocketAddr,
    magic_bytes: MagicBytes,
    duplicate: bool,
}

/// Whether a peer that opened a connection is admitted: it was not active already, as a
/// `duplicate` is, and the connection is not `closed` by now.
pub open spec fn admits(duplicate: bool, closed: bool) -> bool {
    !duplicate && !closed
}

impl<Tx, O, S> Net<Tx, O, S> {
    /// Takes the next incoming connection. A connection from a peer that is active
    /// already is a duplicate, and must be refused.
    pub fn accept_incoming(&self, incoming: Incoming) -> (r: Result<Admission, AcceptConnection>)
        ensures
            match incoming {
                Incoming::EndpointClosed => r matches Err(AcceptConnection::ServerEndpointClosed),
                Incoming::HandshakeFailed { error, remote_address } => r == Err::<
                    Admission,
                    AcceptConnection,
                >(AcceptConnection::Connection { error, remote_address }),
                Incoming::Established { addr } => {
                    &&& r matches Ok(admission)
                    &&& admission.addr() == addr
                    &&& admission.magic() == self.magic()
                    &&& admission.is_duplicate() == self.active(addr)
                },
            },
    {
        match incoming {
            Incoming::EndpointClosed => Err(AcceptConnection::ServerEndpointClosed),
            Incoming::HandshakeFailed { error, remote_address } => Err(
                AcceptConnection::Connection { error, remote_address },
            ),
            Incoming::Established { addr } => {
                let duplicate = self.is_active_peer(&addr);
                Ok(Admission { addr, magic_bytes: self.magic_bytes(), duplicate })
            },
        }
    }

    /// Adds the started connection of an accepted peer, and names the peer that was
    /// added. If the peer became active meanwhile, the connection is rejected.
    pub fn add_accepted_peer(
        &mut self,
        start: PeerStart,
        handle: PeerConnectionHandle<Tx, O, S>,
    ) -> (r: Result<(SocketAddr, PeerInfoForward), AcceptConnection>)
        requires
            old(self).wf(),
        ensures
            final(self).wf(),
            final(self).magic() == old(self).magic(),
            final(self).seed() == old(self).seed(),
            final(self).peers() == added(old(self).peers(), start.addr(), handle),
            old(self).active(start.addr()) ==> {
                &&& r matches Err(AcceptConnection::AlreadyConnected(AlreadyConnected(a)))
                &&& a == start.addr()
                &&& final(self).peers() == old(self).peers()
            },
            !old(self).active(start.addr()) ==> {
                &&& r matches Ok((addr, forward))
                &&& addr == start.addr()
                &&& forward.addr() == start.addr()
                &&& final(self).peers() == old(self).peers().push((start.addr(), handle))
            },
    {
        let addr = start.target();
        match self.add_active_peer(addr, handle) {
            Ok(forward) => Ok((addr, forward)),
            Err(error) => Err(AcceptConnection::AlreadyConnected(error)),
        }
    }
}

impl Admission {
    pub closed spec fn addr(&self) -> SocketAddr {
        self.addr
    }

    pub closed spec fn magic(&self) -> Seq<u8> {
        self.magic_bytes@
    }

    /// Whether the peer was active already.
    pub closed spec fn is_duplicate(&self) -> bool {
        self.duplicate
    }

    /// The code and the reason with which the connection must be closed, if it must.
    pub fn refusal(&self) -> (r: Option<(u32, &'static str)>)
        ensures
            match r {
                Some((code, reason)) => self.is_duplicate() && code == 1 && reason@
                    == REFUSAL_REASON@,
                None => !self.is_duplicate(),
            },
            r matches Some((_, reason)) ==> reason@ == "already connected"@,
    {
        if self.duplicate {
            Some((REFUSAL_CODE, REFUSAL_REASON))
        } else {
            None
        }
    }

    /// Admits the peer, unless it must be refused or its connection is `closed` by now. A
    /// peer that is not admitted is neither recorded nor added.
    pub fn proceed(self, closed: bool) -> (r: Option<PeerRecord>)
        ensures
            match r {
                Some(record) => admits(self.is_duplicate(), closed) && record.addr()
                    == self.addr() && record.magic() == self.magic(),
                None => !admits(self.is_duplicate(), closed),
            },
            r is Some <==> !self.is_duplicate() && !closed,
    {
        if closed || self.duplicate {
            None
        } else {
            Some(PeerRecord::new(self.addr, self.magic_bytes))
        }
    }
}

/// A duplicate is never admitted, nor is a connection that is closed; any other one is.
pub proof fn a_duplicate_is_never_admitted(duplicate: bool, closed: bool)
    ensures
        admits(duplicate, closed) ==> !duplicate,
        admits(duplicate, closed) ==> !closed,
        !admits(duplicate, closed) ==> duplicate || closed,
{
}

} // verus!
