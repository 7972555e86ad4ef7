//! How a connection to a peer begins.
use crate::net::error::{AcceptConnection, AlreadyConnected, ConnectError, DbError, NetError};
use crate::net::peer_message::MagicBytes;
use crate::net::peers::{added, is_peer, Net, PeerConnectionHandle, PeerInfoForward};
use crate::types::{IpAddr, SocketAddr};
use vstd::prelude::*;

verus! {

/// Name by which every peer presents its certificate.
pub const SERVER_NAME: &'static str = "localhost";

/// A peer that is to be dialed. Only `Net` makes one, for an address that may be dialed.
pub struct PeerDial {
    addr: SocketAddr,
    magic_bytes: MagicBytes,
}

/// A peer whose connection has begun, and which is to be recorded as known.
pub struct PeerRecord {
    addr: SocketAddr,
    magic_bytes: MagicBytes,
}

/// A recorded peer, for which the task that drives its connection is to be started,
/// and whose handle is then to be added to the active peers.
pub struct PeerStart {
    addr: SocketAddr,
    magic_bytes: MagicBytes,
}

/// Whether a peer may be dialed: it is not `active`, and its IP address is not unspecified.
pub open spec fn may_dial(active: bool, addr: SocketAddr) -> bool {
    !active && !addr.ip_of().unspecified()
}

/// What a dial to `addr` by a node with the magic bytes `magic` comes to.
pub open spec fn dials(r: Result<PeerDial, NetError>, addr: SocketAddr, magic: Seq<u8>) -> bool {
    if addr.ip_of().unspecified() {
        r matches Err(NetError::UnspecfiedPeerIP(ip)) && ip == addr.ip_of()
    } else {
        r matches Ok(dial) && dial.addr() == addr && dial.magic() == magic
    }
}

/// What a dial to a peer that the database knows comes to. A peer that is `active` is not
/// dialed.
pub open spec fn dials_known(
    r: Result<Option<PeerDial>, NetError>,
    active: bool,
    addr: SocketAddr,
    magic: Seq<u8>,
) -> bool {
    match r {
        Ok(None) => active,
        Ok(Some(dial)) => !active && dials(Ok(dial), addr, magic),
        Err(error) => !active && dials(Err(error), addr, magic),
    }
}

/// What comes of adding the connection of a dialed peer: it is added, unless the peer is
/// active already.
pub open spec fn joins<H>(
    r: Result<PeerInfoForward, NetError>,
    before: Seq<(SocketAddr, H)>,
    after: Seq<(SocketAddr, H)>,
    addr: SocketAddr,
    handle: H,
) -> bool {
    &&& after == added(before, addr, handle)
    &&& match r {
        Ok(forward) => !is_peer(before, addr) && forward.addr() == addr,
        Err(error) => is_peer(before, addr) && error == NetError::AlreadyConnected(
            AlreadyConnected(addr),
        ),
    }
}

impl<Tx, O, S> Net<Tx, O, S> {
    /// Begins to connect to a peer. A peer that is connected already, or whose IP
    /// address is unspecified, is not dialed.
    pub fn connect_peer(&self, addr: SocketAddr) -> (r: Result<PeerDial, NetError>)
        ensures
            r is Ok <==> may_dial(self.active(addr), addr),
            self.active(addr) ==> (r matches Err(NetError::AlreadyConnected(AlreadyConnected(a))) && a
                == addr),
            !self.active(addr) ==> dials(r, addr, self.magic()),
            r is Ok <==> !self.active(addr) && match addr {
                SocketAddr::V4 { ip, port: _ } => ip != 0,
                SocketAddr::V6 { ip, port: _, flowinfo: _, scope_id: _ } => ip != 0,
            },
            r matches Ok(dial) ==> dial.addr() == addr && dial.magic() == self.magic(),
            r matches Err(error) ==> match error {
                NetError::AlreadyConnected(AlreadyConnected(a)) => self.active(addr) && a == addr,
                NetError::UnspecfiedPeerIP(ip) => ip == IpAddr::V4(0) || ip == IpAddr::V6(0),
                _ => false,
            },
    {
        if self.is_active_peer(&addr) {
            return Err(NetError::AlreadyConnected(AlreadyConnected(addr)));
        }
        let ip = addr.ip();
        if ip.is_unspecified() {
            return Err(NetError::UnspecfiedPeerIP(ip));
        }
        Ok(PeerDial { addr, magic_bytes: self.magic_bytes() })
    }

    /// Begins to connect to a peer that the database knows. Returns `None` if the
    /// peer is connected already.
    pub fn dial_known_peer(&self, addr: SocketAddr) -> (r: Result<Option<PeerDial>, NetError>)
        ensures
            dials_known(r, self.active(addr), addr, self.magic()),
            r matches Ok(None) <==> self.active(addr),
            r is Err <==> !self.active(addr) && match addr {
                SocketAddr::V4 { ip, port: _ } => ip == 0,
                SocketAddr::V6 { ip, port: _, flowinfo: _, scope_id: _ } => ip == 0,
            },
            r matches Ok(Some(dial)) ==> dial.addr() == addr && dial.magic() == self.magic(),
            r matches Err(error) ==> (error matches NetError::UnspecfiedPeerIP(ip) && (ip
                == IpAddr::V4(0) || ip == IpAddr::V6(0))),
    {
        if self.is_active_peer(&addr) {
            return Ok(None);
        }
        match self.connect_peer(addr) {
            Ok(dial) => Ok(Some(dial)),
            Err(error) => Err(error),
        }
    }

    /// Adds the started connection of a dialed peer. If the peer became active
    /// meanwhile, the connection is rejected.
    pub fn add_dialed_peer(
        &mut self,
        start: PeerStart,
        handle: PeerConnectionHandle<Tx, O, S>,
    ) -> (r: Result<PeerInfoForward, NetError>)
        requires
            old(self).wf(),
        ensures
            final(self).wf(),
            final(self).magic() == old(self).magic(),
            final(self).seed() == old(self).seed(),
            joins(r, old(self).peers(), final(self).peers(), start.addr(), handle),
            old(self).active(start.addr()) ==> {
                &&& r matches Err(NetError::AlreadyConnected(AlreadyConnected(a)))
                &&& a == start.addr()
                &&& final(self).peers() == old(self).peers()
            },
            !old(self).active(start.addr()) ==> {
                &&& r matches Ok(forward)
                &&& forward.addr() == start.addr()
                &&& final(self).peers() == old(self).peers().push((start.addr(), handle))
            },
    {
        match self.add_active_peer(start.target(), handle) {
            Ok(forward) => Ok(forward),
            Err(error) => Err(NetError::AlreadyConnected(error)),
        }
    }
}

impl PeerDial {
    pub closed spec fn addr(&self) -> SocketAddr {
        self.addr
    }

    pub closed spec fn magic(&self) -> Seq<u8> {
        self.magic_bytes@
    }

    /// The address to dial, and the name that the peer must present.
    pub fn target(&self) -> (r: (SocketAddr, &'static str))
        ensures
            r.0 == self.addr(),
            r.1@ == SERVER_NAME@,
            r.1@ == "localhost"@,
    {
        (self.addr, SERVER_NAME)
    }

    /// Goes on by whether the connection began. A peer that could not be dialed is
    /// not recorded.
    pub fn dialed(self, outcome: Result<(), ConnectError>) -> (r: Result<PeerRecord, NetError>)
        ensures
            match outcome {
                Ok(_) => r matches Ok(record) && record.addr() == self.addr() && record.magic()
                    == self.magic(),
                Err(error) => r == Err::<PeerRecord, NetError>(NetError::Connect(error)),
            },
    {
        match outcome {
            Ok(_) => Ok(PeerRecord { addr: self.addr, magic_bytes: self.magic_bytes }),
            Err(error) => Err(NetError::Connect(error)),
        }
    }
}

impl PeerRecord {
    pub closed spec fn addr(&self) -> SocketAddr {
        self.addr
    }

    pub closed spec fn magic(&self) -> Seq<u8> {
        self.magic_bytes@
    }

    /// A peer whose connection was accepted, and which is to be recorded.
    pub(crate) fn new(addr: SocketAddr, magic_bytes: MagicBytes) -> (r: PeerRecord)
        ensures
            r.addr() == addr,
            r.magic() == magic_bytes@,
    {
        PeerRecord { addr, magic_bytes }
    }

    /// The address to write to the known peers.
    pub fn target(&self) -> (r: SocketAddr)
        ensures
            r == self.addr(),
    {
        self.addr
    }

    /// Goes on, for a peer that was dialed, by whether it was recorded. The task of
    /// a peer that could not be recorded is not started.
    pub fn recorded(self, outcome: Result<(), DbError>) -> (r: Result<PeerStart, NetError>)
        ensures
            match outcome {
                Ok(_) => r matches Ok(start) && start.addr() == self.addr() && start.magic()
                    == self.magic(),
                Err(error) => r == Err::<PeerStart, NetError>(NetError::Db(error)),
            },
    {
        match outcome {
            Ok(_) => Ok(PeerStart { addr: self.addr, magic_bytes: self.magic_bytes }),
            Err(error) => Err(NetError::Db(error)),
        }
    }

    /// Goes on, for a peer that was accepted, by whether it was recorded.
    pub fn recorded_accepted(self, outcome: Result<(), DbError>) -> (r: Result<
        PeerStart,
        AcceptConnection,
    >)
        ensures
            match outcome {
                Ok(_) => r matches Ok(start) && start.addr() == self.addr() && start.magic()
                    == self.magic(),
                Err(error) => r == Err::<PeerStart, AcceptConnection>(AcceptConnection::Db(error)),
            },
    {
        match outcome {
            Ok(_) => Ok(PeerStart { addr: self.addr, magic_bytes: self.magic_bytes }),
            Err(error) => Err(AcceptConnection::Db(error)),
        }
    }
}

impl PeerStart {
    pub closed spec fn addr(&self) -> SocketAddr {
        self.addr
    }

    pub closed spec fn magic(&self) -> Seq<u8> {
        self.magic_bytes@
    }

    /// The address of the peer, under which its handle is added.
    pub fn target(&self) -> (r: SocketAddr)
        ensures
            r == self.addr(),
    {
        self.addr
    }

    /// The magic bytes that the connection uses.
    pub fn magic_bytes(&self) -> (r: MagicBytes)
        ensures
            r@ == self.magic(),
    {
        self.magic_bytes
    }
}

/// A peer that is not active is dialed if and only if its IP address has a bit that is set,
/// whatever its port and its family. One that is not dialed is refused with that IP address.
pub proof fn only_an_unspecified_address_is_refused(
    addr: SocketAddr,
    magic: Seq<u8>,
    r: Result<PeerDial, NetError>,
)
    requires
        dials(r, addr, magic),
    ensures
        r is Ok <==> match addr {
            SocketAddr::V4 { ip, port: _ } => ip != 0,
            SocketAddr::V6 { ip, port: _, flowinfo: _, scope_id: _ } => ip != 0,
        },
        r matches Ok(dial) ==> dial.addr() == addr && dial.magic() == magic,
        r matches Err(error) ==> error == NetError::UnspecfiedPeerIP(
            match addr {
                SocketAddr::V4 { ip: _, port: _ } => IpAddr::V4(0),
                SocketAddr::V6 { ip: _, port: _, flowinfo: _, scope_id: _ } => IpAddr::V6(0),
            },
        ),
{
}

/// Whether a peer may be dialed depends on its IP address alone, and on whether it is active:
/// a peer at another port of the same host may be dialed just as well.
pub proof fn the_port_does_not_matter_for_dialing(ip: IpAddr, port: u16, other: u16, active: bool)
    ensures
        may_dial(active, SocketAddr::of(ip, port)) == may_dial(active, SocketAddr::of(ip, other)),
        may_dial(active, SocketAddr::of(ip, port)) <==> !active && ip != IpAddr::V4(0) && ip
            != IpAddr::V6(0),
{
}

/// An active peer is not dialed again, and any other peer is, as if it were not known.
pub proof fn a_known_peer_is_dialed_like_any_other(
    addr: SocketAddr,
    active: bool,
    magic: Seq<u8>,
    r: Result<Option<PeerDial>, NetError>,
)
    requires
        dials_known(r, active, addr, magic),
    ensures
        r matches Ok(None) <==> active,
        r is Err <==> !active && match addr {
            SocketAddr::V4 { ip, port: _ } => ip == 0,
            SocketAddr::V6 { ip, port: _, flowinfo: _, scope_id: _ } => ip == 0,
        },
        r matches Ok(Some(dial)) ==> dial.addr() == addr && dial.magic() == magic,
        r matches Err(error) ==> dials(Err(error), addr, magic),
{
}

} // verus!
