//! The connections that a node holds.
use crate::net::channel::{send, sent};
use crate::net::error::{AlreadyConnected, DbError, NetError};
use crate::net::peer_message::{
    magic_bytes, network_magic, push_message, pushes, MagicBytes, PeerConnectionMessage,
    PeerRequest, PushTransactionRequest,
};
use crate::net::seed::{seed_name, seed_node_name, SeedNodes};
use crate::types::{Network, Peer, PeerConnectionStatus, SocketAddr};
use futures::channel::mpsc::{TrySendError, UnboundedSender};
use vstd::prelude::*;

verus! {

/// Handle of a connection: the queue of the task that drives it, and the task itself.
#[verifier::reject_recursive_types(Tx)]
#[verifier::reject_recursive_types(O)]
pub struct PeerConnectionHandle<Tx, O, S> {
    pub internal_message_tx: UnboundedSender<PeerConnectionMessage<Tx, O>>,
    pub task: S,
}

/// What a node knows of its peers while it runs.
#[verifier::reject_recursive_types(Tx)]
#[verifier::reject_recursive_types(O)]
pub struct Net<Tx, O, S> {
    magic_bytes: MagicBytes,
    active_peers: Vec<(SocketAddr, PeerConnectionHandle<Tx, O, S>)>,
    seed_node_name: Option<(&'static str, u16)>,
}

/// Forwards what the connection to `addr` tells to whoever follows all peers.
pub struct PeerInfoForward {
    addr: SocketAddr,
}

impl PeerInfoForward {
    /// The peer whose connection is followed.
    pub closed spec fn addr(&self) -> SocketAddr {
        self.addr
    }

    /// What is told of the connection: something that it tells, or that it ended.
    pub open spec fn told<I>(&self, info: Option<I>) -> (SocketAddr, Option<I>) {
        (self.addr(), info)
    }

    /// What is told of one item of the connection. `None` says that it has ended.
    pub fn event<I>(&self, info: Option<I>) -> (r: (SocketAddr, Option<I>))
        ensures
            r == self.told(info),
    {
        (self.addr, info)
    }
}

/// Where `addr` stands among the peers.
pub open spec fn position<H>(peers: Seq<(SocketAddr, H)>, addr: SocketAddr, i: int) -> bool {
    0 <= i < peers.len() && peers[i].0 == addr
}

/// Whether `addr` is among the peers.
pub open spec fn is_peer<H>(peers: Seq<(SocketAddr, H)>, addr: SocketAddr) -> bool {
    exists|i: int| position(peers, addr, i)
}

/// The peers after a connection to `addr` was added, or rejected as a second one.
pub open spec fn added<H>(peers: Seq<(SocketAddr, H)>, addr: SocketAddr, handle: H) -> Seq<
    (SocketAddr, H),
> {
    if is_peer(peers, addr) {
        peers
    } else {
        peers.push((addr, handle))
    }
}

/// The peers after the connection to `addr` was ended, if there was one.
pub open spec fn removed<H>(peers: Seq<(SocketAddr, H)>, addr: SocketAddr) -> Seq<
    (SocketAddr, H),
> {
    if is_peer(peers, addr) {
        peers.remove(choose|i: int| position(peers, addr, i))
    } else {
        peers
    }
}

/// No address is there twice.
pub open spec fn distinct<H>(peers: Seq<(SocketAddr, H)>) -> bool {
    forall|i: int, j: int|
        #![trigger peers[i], peers[j]]
        0 <= i < j < peers.len() ==> peers[i].0 != peers[j].0
}

/// The peers, in order, that take a transaction: those that are not excluded and
/// whose connection, by its `status`, is established.
pub open spec fn tx_targets<H>(
    peers: Seq<(SocketAddr, H)>,
    exclude: Seq<SocketAddr>,
    status: Seq<PeerConnectionStatus>,
) -> Seq<SocketAddr>
    decreases peers.len(),
{
    if peers.len() == 0 {
        Seq::empty()
    } else {
        let before = tx_targets(peers.drop_last(), exclude, status);
        let last = peers.last().0;
        if !exclude.contains(last) && status[peers.len() - 1] == PeerConnectionStatus::Connected {
            before.push(last)
        } else {
            before
        }
    }
}

/// Whether `addrs` holds `addr`.
pub fn contains_addr(addrs: &Vec<SocketAddr>, addr: &SocketAddr) -> (r: bool)
    ensures
        r == addrs@.contains(*addr),
{
    let mut i: usize = 0;
    while i < addrs.len()
        invariant
            i <= addrs.len(),
            forall|j: int| 0 <= j < i ==> addrs@[j] != *addr,
        decreases addrs.len() - i,
    {
        if addrs[i] == *addr {
            return true;
        }
        i = i + 1;
    }
    false
}

impl<Tx, O, S> Net<Tx, O, S> {
    /// Number of databases in which the node keeps what it knows of peers.
    pub const NUM_DBS: u32 = 2;

    /// The active peers and their handles, in the order in which they were added.
    pub closed spec fn peers(&self) -> Seq<(SocketAddr, PeerConnectionHandle<Tx, O, S>)> {
        self.active_peers@
    }

    /// The bytes that begin every message of this node.
    pub closed spec fn magic(&self) -> Seq<u8> {
        self.magic_bytes@
    }

    /// Name and port of the seed node that is looked up at every dial.
    pub closed spec fn seed(&self) -> Option<(&'static str, u16)> {
        self.seed_node_name
    }

    /// Whether a connection to `addr` exists.
    pub open spec fn active(&self, addr: SocketAddr) -> bool {
        is_peer(self.peers(), addr)
    }

    /// Whether `message` was sent to the queue of the connection to `addr`, and was queued,
    /// by `queued`, or not.
    pub open spec fn pushed(
        &self,
        addr: SocketAddr,
        message: PeerConnectionMessage<Tx, O>,
        queued: bool,
    ) -> bool {
        exists|i: int| #[trigger]
            position(self.peers(), addr, i) && sent(
                self.peers()[i].1.internal_message_tx,
                message,
                queued,
            )
    }

    /// Whether a copy of `tx` was sent to the queue of the connection to `addr`, and was
    /// queued, by `queued`, or not.
    pub open spec fn tx_pushed(&self, tx: Tx, addr: SocketAddr, queued: bool) -> bool where
        Tx: Clone,
     {
        exists|message: PeerConnectionMessage<Tx, O>| #[trigger]
            self.pushed(addr, message, queued) && pushes(message, tx)
    }

    /// At most one connection to each address.
    pub open spec fn wf(&self) -> bool {
        distinct(self.peers())
    }

    /// A node with no connection yet. Its magic bytes are those of the network,
    /// unless others are given.
    pub fn new(magic_bytes_override: Option<MagicBytes>, network: Network) -> (net: Self)
        ensures
            net.wf(),
            net.peers().len() == 0,
            net.magic() == match magic_bytes_override {
                Some(bytes) => bytes@,
                None => network_magic(network),
            },
            net.seed() == seed_name(network),
    {
        let magic_bytes = match magic_bytes_override {
            Some(bytes) => bytes,
            None => magic_bytes(network),
        };
        Net { magic_bytes, active_peers: Vec::new(), seed_node_name: seed_node_name(network) }
    }

    /// The bytes that begin every message of this node.
    pub fn magic_bytes(&self) -> (r: MagicBytes)
        ensures
            r@ == self.magic(),
    {
        self.magic_bytes
    }

    /// Position of the connection to `addr`.
    fn find(&self, addr: &SocketAddr) -> (r: Option<usize>)
        ensures
            match r {
                Some(i) => position(self.peers(), *addr, i as int),
                None => !self.active(*addr),
            },
    {
        let mut i: usize = 0;
        while i < self.active_peers.len()
            invariant
                i <= self.active_peers.len(),
                forall|j: int| 0 <= j < i ==> !position(self.peers(), *addr, j),
            decreases self.active_peers.len() - i,
        {
            if self.active_peers[i].0 == *addr {
                return Some(i);
            }
            i = i + 1;
        }
        None
    }

    /// Whether a connection to `addr` exists.
    pub fn is_active_peer(&self, addr: &SocketAddr) -> (r: bool)
        ensures
            r == self.active(*addr),
            r <==> exists|i: int|
                0 <= i < self.peers().len() && (#[trigger] self.peers()[i]).0 == *addr,
    {
        proof {
            an_active_peer_is_listed(self.peers(), *addr);
        }
        match self.find(addr) {
            Some(i) => {
                assert(position(self.peers(), *addr, i as int));
                true
            },
            None => false,
        }
    }

    /// Whether no connection exists.
    pub fn has_no_active_peers(&self) -> (r: bool)
        ensures
            r == (self.peers().len() == 0),
    {
        self.active_peers.len() == 0
    }

    /// Adds a connection. A second connection to the same address is rejected: its
    /// handle is dropped, and nothing is forwarded for it.
    pub fn add_active_peer(
        &mut self,
        addr: SocketAddr,
        peer_connection_handle: PeerConnectionHandle<Tx, O, S>,
    ) -> (r: Result<PeerInfoForward, AlreadyConnected>)
        requires
            old(self).wf(),
        ensures
            final(self).wf(),
            final(self).magic() == old(self).magic(),
            final(self).seed() == old(self).seed(),
            old(self).active(addr) ==> r == Err::<PeerInfoForward, AlreadyConnected>(
                AlreadyConnected(addr),
            ),
            !old(self).active(addr) ==> (r matches Ok(forward) && forward.addr() == addr),
            final(self).peers() == added(old(self).peers(), addr, peer_connection_handle),
            old(self).active(addr) ==> final(self).peers() == old(self).peers(),
            !old(self).active(addr) ==> final(self).peers() == old(self).peers().push(
                (addr, peer_connection_handle),
            ),
    {
        if self.is_active_peer(&addr) {
            return Err(AlreadyConnected(addr));
        }
        self.active_peers.push((addr, peer_connection_handle));
        proof {
            let before = old(self).peers();
            assert forall|i: int, j: int|
                #![trigger self.peers()[i], self.peers()[j]]
                0 <= i < j < self.peers().len() implies self.peers()[i].0 != self.peers()[j].0 by {
                if j == before.len() {
                    assert(!position(before, addr, i));
                } else {
                    assert(before[i].0 != before[j].0);
                }
            }
        }
        Ok(PeerInfoForward { addr })
    }

    /// Ends the connection to `addr`, if there is one: its handle is dropped.
    pub fn remove_active_peer(&mut self, addr: SocketAddr)
        requires
            old(self).wf(),
        ensures
            final(self).wf(),
            final(self).magic() == old(self).magic(),
            final(self).seed() == old(self).seed(),
            forall|i: int| #[trigger]
                position(old(self).peers(), addr, i) ==> final(self).peers() == old(
                    self,
                ).peers().remove(i),
            !old(self).active(addr) ==> final(self).peers() == old(self).peers(),
            final(self).peers() == removed(old(self).peers(), addr),
            !final(self).active(addr),
    {
        match self.find(&addr) {
            Some(i) => {
                assert(position(old(self).peers(), addr, i as int));
                let _ = self.active_peers.remove(i);
                proof {
                    let before = old(self).peers();
                    assert(self.peers() == before.remove(i as int));
                    assert forall|k: int| #[trigger] position(before, addr, k) implies k == i by {
                        if k < i {
                            assert(before[k].0 != before[i as int].0);
                        } else if i < k {
                            assert(before[i as int].0 != before[k].0);
                        }
                    }
                    assert forall|k: int| !position(self.peers(), addr, k) by {
                        if 0 <= k < self.peers().len() {
                            let m = if k < i {
                                k
                            } else {
                                k + 1
                            };
                            assert(self.peers()[k] == before[m]);
                            assert(!position(before, addr, m));
                        }
                    }
                    assert forall|a: int, b: int|
                        #![trigger self.peers()[a], self.peers()[b]]
                        0 <= a < b < self.peers().len() implies self.peers()[a].0
                        != self.peers()[b].0 by {
                        let m = if a < i {
                            a
                        } else {
                            a + 1
                        };
                        let n = if b < i {
                            b
                        } else {
                            b + 1
                        };
                        assert(self.peers()[a] == before[m]);
                        assert(self.peers()[b] == before[n]);
                    }
                }
            },
            None => {},
        }
    }

    /// Applies `f` to the handle of the connection to `addr`, if it exists.
    pub fn try_with_active_peer_connection<F, T>(&self, addr: SocketAddr, f: F) -> (r: Option<T>)
        where F: FnOnce(&PeerConnectionHandle<Tx, O, S>) -> T

        requires
            self.wf(),
            forall|i: int| #[trigger]
                position(self.peers(), addr, i) ==> call_requires(f, (&self.peers()[i].1,)),
        ensures
            r is Some <==> self.active(addr),
            forall|i: int| #[trigger]
                position(self.peers(), addr, i) ==> call_ensures(
                    f,
                    (&self.peers()[i].1,),
                    r->Some_0,
                ),
    {
        match self.find(&addr) {
            Some(i) => {
                let result = f(&self.active_peers[i].1);
                proof {
                    assert forall|k: int| #[trigger] position(self.peers(), addr, k) implies k
                        == i by {
                        if k < i {
                            assert(self.peers()[k].0 != self.peers()[i as int].0);
                        } else if i < k {
                            assert(self.peers()[i as int].0 != self.peers()[k].0);
                        }
                    }
                    assert(position(self.peers(), addr, i as int));
                }
                Some(result)
            },
            None => None,
        }
    }

    /// Every active peer, with the status that its handle gives.
    pub fn get_active_peers<F>(&self, status: F) -> (r: Vec<Peer>)
        where F: Fn(&PeerConnectionHandle<Tx, O, S>) -> PeerConnectionStatus

        requires
            forall|i: int|
                #![trigger self.peers()[i]]
                0 <= i < self.peers().len() ==> call_requires(status, (&self.peers()[i].1,)),
        ensures
            r.len() == self.peers().len(),
            forall|i: int|
                #![trigger r[i]]
                0 <= i < r.len() ==> {
                    &&& r[i].address == self.peers()[i].0
                    &&& call_ensures(status, (&self.peers()[i].1,), r[i].status)
                },
    {
        let mut peers: Vec<Peer> = Vec::new();
        let mut i: usize = 0;
        while i < self.active_peers.len()
            invariant
                i <= self.active_peers.len(),
                peers.len() == i,
                forall|j: int|
                    #![trigger self.peers()[j]]
                    0 <= j < self.peers().len() ==> call_requires(status, (&self.peers()[j].1,)),
                forall|j: int|
                    #![trigger peers[j]]
                    0 <= j < i ==> {
                        &&& peers[j].address == self.peers()[j].0
                        &&& call_ensures(status, (&self.peers()[j].1,), peers[j].status)
                    },
            decreases self.active_peers.len() - i,
        {
            let entry = &self.active_peers[i];
            assert(self.peers()[i as int] == *entry);
            let status = status(&entry.1);
            peers.push(Peer { address: entry.0, status });
            i = i + 1;
        }
        peers
    }

    /// Deletes `addr` from the known peers by `delete`, and says whether it was there.
    /// Connections are not touched.
    pub fn forget_peer<F>(&self, addr: &SocketAddr, delete: F) -> (r: Result<bool, NetError>)
        where F: FnOnce(&SocketAddr) -> Result<bool, DbError>

        requires
            call_requires(delete, (addr,)),
        ensures
            forgets(delete, *addr, r),
    {
        match delete(addr) {
            Ok(found) => Ok(found),
            Err(error) => Err(NetError::Db(error)),
        }
    }

    /// How the seed nodes of the network are found: by a lookup of their name, or, on a
    /// network without a seed node name, not at all.
    pub fn resolve_seed_node_addrs(&self) -> (r: SeedNodes)
        ensures
            match self.seed() {
                Some((host, port)) => r == (SeedNodes::Named { host, port }),
                None => r matches SeedNodes::Known(addrs) && addrs@.len() == 0,
            },
    {
        match self.seed_node_name {
            Some((host, port)) => SeedNodes::Named { host, port },
            None => SeedNodes::Known(Vec::new()),
        }
    }

    /// Queues `message` for the connection to `addr`. Returns `true` if it was queued.
    pub fn push_internal_message(
        &self,
        message: PeerConnectionMessage<Tx, O>,
        addr: SocketAddr,
    ) -> (r: bool)
        ensures
            self.active(addr) ==> self.pushed(addr, message, r),
            !self.active(addr) ==> !r,
    {
        match self.find(&addr) {
            Some(i) => {
                assert(position(self.peers(), addr, i as int));
                send(&self.active_peers[i].1.internal_message_tx, message)
            },
            None => false,
        }
    }

    /// The peers that take a transaction: those that are not in `exclude` and whose
    /// connection is established.
    pub fn push_tx_targets<F>(&self, exclude: &Vec<SocketAddr>, status: F) -> (r: Vec<SocketAddr>)
        where F: Fn(&PeerConnectionHandle<Tx, O, S>) -> PeerConnectionStatus

        requires
            forall|i: int|
                #![trigger self.peers()[i]]
                0 <= i < self.peers().len() && !exclude@.contains(self.peers()[i].0)
                    ==> call_requires(status, (&self.peers()[i].1,)),
        ensures
            exists|read: Seq<PeerConnectionStatus>|
                {
                    &&& #[trigger] tx_targets(self.peers(), exclude@, read) == r@
                    &&& forall|i: int|
                        #![trigger read[i]]
                        0 <= i < self.peers().len() && !exclude@.contains(self.peers()[i].0)
                            ==> call_ensures(status, (&self.peers()[i].1,), read[i])
                },
            forall|k: int|
                #![trigger r[k]]
                0 <= k < r.len() ==> !exclude@.contains(r[k]) && self.active(r[k]),
            self.wf() ==> r@.no_duplicates(),
            self.wf() ==> forall|i: int|
                #![trigger self.peers()[i]]
                0 <= i < self.peers().len() && !exclude@.contains(self.peers()[i].0)
                    ==> call_ensures(
                    status,
                    (&self.peers()[i].1,),
                    if r@.contains(self.peers()[i].0) {
                        PeerConnectionStatus::Connected
                    } else {
                        PeerConnectionStatus::Connecting
                    },
                ),
    {
        let mut targets: Vec<SocketAddr> = Vec::new();
        let mut i: usize = 0;
        let ghost mut read: Seq<PeerConnectionStatus> = Seq::empty();
        while i < self.active_peers.len()
            invariant
                i <= self.active_peers.len(),
                read.len() == i,
                targets@ == tx_targets(self.peers().take(i as int), exclude@, read),
                forall|j: int|
                    #![trigger self.peers()[j]]
                    0 <= j < self.peers().len() && !exclude@.contains(self.peers()[j].0)
                        ==> call_requires(status, (&self.peers()[j].1,)),
                forall|j: int|
                    #![trigger read[j]]
                    0 <= j < i && !exclude@.contains(self.peers()[j].0) ==> call_ensures(
                        status,
                        (&self.peers()[j].1,),
                        read[j],
                    ),
            decreases self.active_peers.len() - i,
        {
            let entry = &self.active_peers[i];
            let addr = entry.0;
            assert(self.peers()[i as int] == *entry);
            let ghost before = self.peers().take(i as int);
            let ghost upto = self.peers().take(i + 1);
            assert(upto.drop_last() == before);
            if contains_addr(exclude, &addr) {
                proof {
                    let more = read.push(PeerConnectionStatus::Connecting);
                    tx_targets_ignores_later(before, exclude@, read, more);
                    read = more;
                }
            } else {
                let found = status(&entry.1);
                proof {
                    let more = read.push(found);
                    tx_targets_ignores_later(before, exclude@, read, more);
                    read = more;
                }
                if found == PeerConnectionStatus::Connected {
                    targets.push(addr);
                }
            }
            i = i + 1;
        }
        assert(self.peers().take(i as int) == self.peers());
        proof {
            let peers = self.peers();
            assert(tx_targets(peers, exclude@, read) == targets@);
            assert forall|k: int| #![trigger targets[k]] 0 <= k < targets.len() implies {
                &&& !exclude@.contains(targets[k])
                &&& self.active(targets[k])
            } by {
                tx_targets_are_peers(peers, exclude@, read, k);
            }
            if self.wf() {
                a_transaction_goes_to_each_established_peer_once(peers, exclude@, read);
                assert forall|j: int|
                    #![trigger self.peers()[j]]
                    0 <= j < self.peers().len() && !exclude@.contains(
                        self.peers()[j].0,
                    ) implies call_ensures(
                    status,
                    (&self.peers()[j].1,),
                    if targets@.contains(self.peers()[j].0) {
                        PeerConnectionStatus::Connected
                    } else {
                        PeerConnectionStatus::Connecting
                    },
                ) by {
                    assert(call_ensures(status, (&self.peers()[j].1,), read[j]));
                    match read[j] {
                        PeerConnectionStatus::Connected => {},
                        PeerConnectionStatus::Connecting => {},
                    }
                }
            }
        }
        targets
    }

    /// Pushes a copy of `tx` to every active peer that is not in `exclude` and whose
    /// connection is established. Says of each of them whether the message was queued.
    ///
    /// The queues are shared, so what they hold is not spoken of. That nothing else is sent
    /// rests on the steps: only `deliver` sends, and it can send no more than it is handed.
    pub fn push_tx<F>(&self, exclude: &Vec<SocketAddr>, tx: &Tx, status: F) -> (r: Vec<
        (SocketAddr, bool),
    >) where Tx: Clone, F: Fn(&PeerConnectionHandle<Tx, O, S>) -> PeerConnectionStatus
        requires
            forall|i: int|
                #![trigger self.peers()[i]]
                0 <= i < self.peers().len() && !exclude@.contains(self.peers()[i].0)
                    ==> call_requires(status, (&self.peers()[i].1,)),
        ensures
            exists|read: Seq<PeerConnectionStatus>|
                {
                    &&& #[trigger] tx_targets(self.peers(), exclude@, read) == r@.map_values(
                        |outcome: (SocketAddr, bool)| outcome.0,
                    )
                    &&& forall|i: int|
                        #![trigger read[i]]
                        0 <= i < self.peers().len() && !exclude@.contains(self.peers()[i].0)
                            ==> call_ensures(status, (&self.peers()[i].1,), read[i])
                },
            forall|k: int| #![trigger r[k]] 0 <= k < r.len() ==> self.tx_pushed(*tx, r[k].0, r[k].1),
            forall|k: int|
                #![trigger r[k]]
                0 <= k < r.len() ==> !exclude@.contains(r[k].0) && self.active(r[k].0),
            self.wf() ==> r@.map_values(
                |outcome: (SocketAddr, bool)| outcome.0,
            ).no_duplicates(),
            self.wf() ==> forall|i: int|
                #![trigger self.peers()[i]]
                0 <= i < self.peers().len() && !exclude@.contains(self.peers()[i].0)
                    ==> call_ensures(
                    status,
                    (&self.peers()[i].1,),
                    if r@.map_values(|outcome: (SocketAddr, bool)| outcome.0).contains(
                        self.peers()[i].0,
                    ) {
                        PeerConnectionStatus::Connected
                    } else {
                        PeerConnectionStatus::Connecting
                    },
                ),
    {
        let targets = self.push_tx_targets(exclude, status);
        let ghost read = choose|read: Seq<PeerConnectionStatus>|
            {
                &&& #[trigger] tx_targets(self.peers(), exclude@, read) == targets@
                &&& forall|i: int|
                    #![trigger read[i]]
                    0 <= i < self.peers().len() && !exclude@.contains(self.peers()[i].0)
                        ==> call_ensures(status, (&self.peers()[i].1,), read[i])
            };
        proof {
            let peers = self.peers();
            assert forall|k: int| #![trigger targets@[k]] 0 <= k < targets@.len() implies is_peer(
                peers,
                targets@[k],
            ) && !exclude@.contains(targets@[k]) by {
                tx_targets_are_peers(peers, exclude@, read, k);
            }
        }
        let outcomes = self.deliver(push_list(&targets, tx));
        assert(targets@ =~= outcomes@.map_values(|outcome: (SocketAddr, bool)| outcome.0));
        proof {
            assert forall|k: int| #![trigger outcomes[k]] 0 <= k < outcomes.len() implies {
                &&& !exclude@.contains(outcomes[k].0)
                &&& self.active(outcomes[k].0)
                &&& self.tx_pushed(*tx, outcomes[k].0, outcomes[k].1)
            } by {
                assert(outcomes[k].0 == targets@[k]);
            }
        }
        outcomes
    }

    /// Queues each message for the connection to its peer, in order. As the messages are
    /// handed over, and none can be made here, each of them is sent once, and nothing else is.
    fn deliver(&self, sends: Vec<(SocketAddr, PeerConnectionMessage<Tx, O>)>) -> (r: Vec<
        (SocketAddr, bool),
    >)
        ensures
            r.len() == sends.len(),
            forall|k: int|
                #![trigger r[k]]
                #![trigger sends[k]]
                0 <= k < r.len() ==> {
                    &&& r[k].0 == sends[k].0
                    &&& self.active(sends[k].0) ==> self.pushed(sends[k].0, sends[k].1, r[k].1)
                    &&& !self.active(sends[k].0) ==> !r[k].1
                },
    {
        let ghost all = sends@;
        let mut left = sends;
        let mut outcomes: Vec<(SocketAddr, bool)> = Vec::new();
        while left.len() > 0
            invariant
                all == sends@,
                outcomes.len() + left.len() == all.len(),
                left@ == all.skip(outcomes.len() as int),
                forall|k: int|
                    #![trigger outcomes[k]]
                    0 <= k < outcomes.len() ==> {
                        &&& outcomes[k].0 == all[k].0
                        &&& self.active(all[k].0) ==> self.pushed(
                            all[k].0,
                            all[k].1,
                            outcomes[k].1,
                        )
                        &&& !self.active(all[k].0) ==> !outcomes[k].1
                    },
            decreases left.len(),
        {
            assert(left@[0] == all[outcomes.len() as int]);
            assert(left@.remove(0) =~= all.skip(outcomes.len() + 1));
            let (addr, message) = left.remove(0);
            let queued = self.push_internal_message(message, addr);
            outcomes.push((addr, queued));
        }
        outcomes
    }
}

/// The messages by which `tx` is pushed, one for each of the targets.
fn push_list<Tx: Clone, O>(targets: &Vec<SocketAddr>, tx: &Tx) -> (r: Vec<
    (SocketAddr, PeerConnectionMessage<Tx, O>),
>)
    ensures
        r.len() == targets.len(),
        forall|k: int|
            #![trigger r[k]]
            0 <= k < r.len() ==> r[k].0 == targets[k] && pushes(r[k].1, *tx),
{
    let mut sends: Vec<(SocketAddr, PeerConnectionMessage<Tx, O>)> = Vec::new();
    let mut k: usize = 0;
    while k < targets.len()
        invariant
            k <= targets.len(),
            sends.len() == k,
            forall|j: int|
                #![trigger sends[j]]
                0 <= j < k ==> sends[j].0 == targets[j] && pushes(sends[j].1, *tx),
        decreases targets.len() - k,
    {
        sends.push((targets[k], push_message(tx)));
        k = k + 1;
    }
    sends
}

/// Whoever takes a transaction is an active peer that is not excluded.
proof fn tx_targets_are_peers<H>(
    peers: Seq<(SocketAddr, H)>,
    exclude: Seq<SocketAddr>,
    status: Seq<PeerConnectionStatus>,
    k: int,
)
    requires
        0 <= k < tx_targets(peers, exclude, status).len(),
    ensures
        is_peer(peers, tx_targets(peers, exclude, status)[k]),
        !exclude.contains(tx_targets(peers, exclude, status)[k]),
    decreases peers.len(),
{
    let before = peers.drop_last();
    let last = peers.len() - 1;
    if k < tx_targets(before, exclude, status).len() {
        tx_targets_are_peers(before, exclude, status, k);
        let i = choose|i: int| position(before, tx_targets(before, exclude, status)[k], i);
        assert(position(peers, tx_targets(peers, exclude, status)[k], i));
    } else {
        assert(position(peers, tx_targets(peers, exclude, status)[k], last));
    }
}

/// A transaction goes to an active peer if and only if the peer is not excluded and
/// its connection is established. It goes to no one else, and to no peer twice.
pub proof fn a_transaction_goes_to_each_established_peer_once<H>(
    peers: Seq<(SocketAddr, H)>,
    exclude: Seq<SocketAddr>,
    status: Seq<PeerConnectionStatus>,
)
    requires
        distinct(peers),
    ensures
        forall|i: int|
            #![trigger peers[i]]
            0 <= i < peers.len() ==> (tx_targets(peers, exclude, status).contains(peers[i].0) <==> {
                &&& !exclude.contains(peers[i].0)
                &&& status[i] == PeerConnectionStatus::Connected
            }),
        forall|k: int|
            #![trigger tx_targets(peers, exclude, status)[k]]
            0 <= k < tx_targets(peers, exclude, status).len() ==> is_peer(
                peers,
                tx_targets(peers, exclude, status)[k],
            ),
        tx_targets(peers, exclude, status).no_duplicates(),
    decreases peers.len(),
{
    let targets = tx_targets(peers, exclude, status);
    assert forall|k: int| #![trigger targets[k]] 0 <= k < targets.len() implies is_peer(
        peers,
        targets[k],
    ) by {
        tx_targets_are_peers(peers, exclude, status, k);
    }
    if peers.len() > 0 {
        let before = peers.drop_last();
        let last = peers.last().0;
        let earlier = tx_targets(before, exclude, status);
        assert(distinct(before)) by {
            assert forall|i: int, j: int|
                #![trigger before[i], before[j]]
                0 <= i < j < before.len() implies before[i].0 != before[j].0 by {
                assert(before[i] == peers[i]);
                assert(before[j] == peers[j]);
            }
        }
        a_transaction_goes_to_each_established_peer_once(before, exclude, status);
        assert(!is_peer(before, last)) by {
            assert forall|i: int| !position(before, last, i) by {
                if 0 <= i < before.len() {
                    assert(peers[i].0 != peers[peers.len() - 1].0);
                }
            }
        }
        assert(!earlier.contains(last)) by {
            if earlier.contains(last) {
                let k = choose|k: int| 0 <= k < earlier.len() && earlier[k] == last;
                assert(is_peer(before, earlier[k]));
            }
        }
        let goes = !exclude.contains(last) && status[peers.len() - 1]
            == PeerConnectionStatus::Connected;
        if goes {
            assert(targets == earlier.push(last));
            assert(targets[targets.len() - 1] == last);
            assert(targets.contains(last));
        }
        assert forall|i: int| #![trigger peers[i]] 0 <= i < peers.len() implies (targets.contains(
            peers[i].0,
        ) <==> !exclude.contains(peers[i].0) && status[i] == PeerConnectionStatus::Connected) by {
            if i < before.len() {
                assert(before[i] == peers[i]);
                assert(peers[i].0 != peers[peers.len() - 1].0);
                if earlier.contains(peers[i].0) {
                    let k = choose|k: int| 0 <= k < earlier.len() && earlier[k] == peers[i].0;
                    assert(targets[k] == peers[i].0);
                }
                if targets.contains(peers[i].0) {
                    let k = choose|k: int| 0 <= k < targets.len() && targets[k] == peers[i].0;
                    assert(earlier[k] == peers[i].0);
                }
            }
        }
    }
}

/// A connection that was added and then removed leaves the others as they were, so
/// that the peer can be dialed again.
pub proof fn removing_undoes_adding<H>(peers: Seq<(SocketAddr, H)>, addr: SocketAddr, handle: H)
    requires
        distinct(peers),
        !is_peer(peers, addr),
    ensures
        is_peer(added(peers, addr, handle), addr),
        removed(added(peers, addr, handle), addr) == peers,
{
    let more = added(peers, addr, handle);
    let last = peers.len() as int;
    assert(position(more, addr, last));
    assert forall|i: int| #[trigger] position(more, addr, i) implies i == last by {
        if i < last {
            assert(position(peers, addr, i));
        }
    }
    assert(more.remove(last) =~= peers);
}

/// Whether `r` is what `delete` answered for `addr`.
pub open spec fn forgets<F>(delete: F, addr: SocketAddr, r: Result<bool, NetError>) -> bool where
    F: FnOnce(&SocketAddr) -> Result<bool, DbError>,
 {
    match r {
        Ok(found) => call_ensures(delete, (&addr,), Ok::<bool, DbError>(found)),
        Err(NetError::Db(error)) => call_ensures(delete, (&addr,), Err::<bool, DbError>(error)),
        Err(_) => false,
    }
}

/// Whether `delete`, unless it fails, says whether `addr` is one of the `known` peers.
pub open spec fn deletes_from<F>(delete: F, known: Set<SocketAddr>, addr: SocketAddr) -> bool where
    F: FnOnce(&SocketAddr) -> Result<bool, DbError>,
 {
    forall|found: bool| #[trigger]
        call_ensures(delete, (&addr,), Ok::<bool, DbError>(found)) ==> found == known.contains(addr)
}

/// While the database does not fail, a peer is forgotten if and only if it was known, and
/// forgetting it a second time finds nothing.
pub proof fn a_peer_is_forgotten_once<F, G>(
    known: Set<SocketAddr>,
    addr: SocketAddr,
    first: F,
    second: G,
    found: Result<bool, NetError>,
    found_again: Result<bool, NetError>,
) where
    F: FnOnce(&SocketAddr) -> Result<bool, DbError>,
    G: FnOnce(&SocketAddr) -> Result<bool, DbError>,

    requires
        forgets(first, addr, found),
        forgets(second, addr, found_again),
        deletes_from(first, known, addr),
        deletes_from(second, known.remove(addr), addr),
        found is Ok,
        found_again is Ok,
    ensures
        found == Ok::<bool, NetError>(known.contains(addr)),
        found_again == Ok::<bool, NetError>(false),
{
}

/// What `forward` tells of a connection that tells `infos` and then ends.
pub open spec fn forwarded<I>(forward: PeerInfoForward, infos: Seq<I>) -> Seq<
    (SocketAddr, Option<I>),
> {
    infos.map_values(|info: I| forward.told(Some(info))).push(forward.told(None))
}

/// Of a connection that tells `infos` and then ends, whoever follows all peers hears all of
/// it under the address of the peer, and hears of the end exactly once, after the rest.
pub proof fn a_connection_ends_once<I>(forward: PeerInfoForward, infos: Seq<I>, k: int)
    requires
        0 <= k < forwarded(forward, infos).len(),
    ensures
        forwarded(forward, infos).len() == infos.len() + 1,
        forwarded(forward, infos)[k] == forward.told(
            if k < infos.len() {
                Some(infos[k])
            } else {
                None
            },
        ),
        forwarded(forward, infos)[k].0 == forward.addr(),
        forwarded(forward, infos)[k].1 is None <==> k == infos.len(),
{
}

/// Statuses beyond the last peer do not matter.
proof fn tx_targets_ignores_later<H>(
    peers: Seq<(SocketAddr, H)>,
    exclude: Seq<SocketAddr>,
    a: Seq<PeerConnectionStatus>,
    b: Seq<PeerConnectionStatus>,
)
    requires
        forall|i: int| 0 <= i < peers.len() ==> a[i] == b[i],
    ensures
        tx_targets(peers, exclude, a) == tx_targets(peers, exclude, b),
    decreases peers.len(),
{
    if peers.len() > 0 {
        tx_targets_ignores_later(peers.drop_last(), exclude, a, b);
    }
}

/// A peer is active if and only if a connection to exactly its address is listed.
pub proof fn an_active_peer_is_listed<H>(peers: Seq<(SocketAddr, H)>, addr: SocketAddr)
    ensures
        is_peer(peers, addr) <==> exists|i: int|
            0 <= i < peers.len() && (#[trigger] peers[i]).0 == addr,
{
    if is_peer(peers, addr) {
        let i = choose|i: int| position(peers, addr, i);
        assert(peers[i].0 == addr);
    }
    if exists|i: int| 0 <= i < peers.len() && (#[trigger] peers[i]).0 == addr {
        let i = choose|i: int| 0 <= i < peers.len() && (#[trigger] peers[i]).0 == addr;
        assert(position(peers, addr, i));
    }
}

/// A connection to a new address is added behind the others, which stay as they are. A second
/// connection to an address is not added, and the first one keeps its handle.
pub proof fn a_second_connection_changes_nothing<H>(
    peers: Seq<(SocketAddr, H)>,
    addr: SocketAddr,
    handle: H,
    second: H,
)
    ensures
        ({
            let first = added(peers, addr, handle);
            &&& is_peer(first, addr)
            &&& first.take(peers.len() as int) == peers
            &&& !is_peer(peers, addr) ==> first.len() == peers.len() + 1 && first.last() == (
                addr,
                handle,
            )
            &&& added(first, addr, second) == first
        }),
{
    let first = added(peers, addr, handle);
    if !is_peer(peers, addr) {
        assert(position(first, addr, peers.len() as int));
    }
    assert(first.take(peers.len() as int) =~= peers);
}

/// Ending a connection ends that one and no other: what is left are the connections to other
/// addresses, with the handles that they had, and nothing twice.
pub proof fn ending_a_connection_ends_no_other<H>(
    peers: Seq<(SocketAddr, H)>,
    addr: SocketAddr,
    other: (SocketAddr, H),
)
    requires
        distinct(peers),
    ensures
        removed(peers, addr).contains(other) <==> peers.contains(other) && other.0 != addr,
        removed(peers, addr).len() == if is_peer(peers, addr) {
            peers.len() - 1
        } else {
            peers.len() as int
        },
{
    let left = removed(peers, addr);
    if is_peer(peers, addr) {
        let gone = choose|i: int| position(peers, addr, i);
        assert(left == peers.remove(gone));
        if left.contains(other) {
            let k = choose|k: int| 0 <= k < left.len() && left[k] == other;
            let m = if k < gone {
                k
            } else {
                k + 1
            };
            assert(peers[m] == other);
            assert(peers[m].0 != peers[gone].0);
        }
        if peers.contains(other) && other.0 != addr {
            let m = choose|m: int| 0 <= m < peers.len() && peers[m] == other;
            let k = if m < gone {
                m
            } else {
                m - 1
            };
            assert(left[k] == other);
        }
    } else if peers.contains(other) {
        let m = choose|m: int| 0 <= m < peers.len() && peers[m] == other;
        assert(!position(peers, addr, m));
    }
}

/// A message that was pushed to a peer was handed to `unbounded_send` on the queue of a
/// connection to that very address, and what is said of it is what that call came to.
pub proof fn a_pushed_message_was_handed_to_the_queue<Tx, O, S>(
    net: &Net<Tx, O, S>,
    addr: SocketAddr,
    message: PeerConnectionMessage<Tx, O>,
    queued: bool,
)
    requires
        net.pushed(addr, message, queued),
    ensures
        exists|i: int, r: Result<(), TrySendError<PeerConnectionMessage<Tx, O>>>|
            {
                &&& 0 <= i < net.peers().len()
                &&& net.peers()[i].0 == addr
                &&& #[trigger] call_ensures(
                    UnboundedSender::<PeerConnectionMessage<Tx, O>>::unbounded_send,
                    (&(#[trigger] net.peers()[i]).1.internal_message_tx, message),
                    r,
                )
                &&& r is Ok <==> queued
            },
{
    let i = choose|i: int| #[trigger]
        position(net.peers(), addr, i) && sent(
            net.peers()[i].1.internal_message_tx,
            message,
            queued,
        );
    let tx = net.peers()[i].1.internal_message_tx;
    let r = choose|r: Result<(), TrySendError<PeerConnectionMessage<Tx, O>>>| #[trigger]
        call_ensures(
            UnboundedSender::<PeerConnectionMessage<Tx, O>>::unbounded_send,
            (&tx, message),
            r,
        ) && (r is Ok == queued);
    assert(net.peers()[i].0 == addr);
    assert(call_ensures(
        UnboundedSender::<PeerConnectionMessage<Tx, O>>::unbounded_send,
        (&net.peers()[i].1.internal_message_tx, message),
        r,
    ));
}

/// A transaction that was pushed to a peer went out as a request to take it, which holds a
/// copy of that very transaction.
pub proof fn a_pushed_transaction_is_a_copy<Tx: Clone, O, S>(
    net: &Net<Tx, O, S>,
    tx: Tx,
    addr: SocketAddr,
    queued: bool,
)
    requires
        net.tx_pushed(tx, addr, queued),
    ensures
        exists|copy: Box<Tx>|
            {
                &&& cloned(tx, *copy)
                &&& #[trigger] net.pushed(
                    addr,
                    PeerConnectionMessage::Request(
                        PeerRequest::PushTransaction(PushTransactionRequest { transaction: copy }),
                    ),
                    queued,
                )
            },
{
    let message = choose|message: PeerConnectionMessage<Tx, O>| #[trigger]
        net.pushed(addr, message, queued) && pushes(message, tx);
    match message {
        PeerConnectionMessage::Request(PeerRequest::PushTransaction(request)) => {
            let copy = request.transaction;
            assert(net.pushed(
                addr,
                PeerConnectionMessage::Request(
                    PeerRequest::PushTransaction(PushTransactionRequest { transaction: copy }),
                ),
                queued,
            ));
        },
        PeerConnectionMessage::Other(_) => {},
    }
}

/// A peer is forgotten, or not found, only where the database said so, and a database that
/// failed is an error.
pub proof fn a_failed_deletion_is_an_error<F>(
    delete: F,
    addr: SocketAddr,
    r: Result<bool, NetError>,
) where F: FnOnce(&SocketAddr) -> Result<bool, DbError>
    requires
        forgets(delete, addr, r),
    ensures
        r matches Ok(found) ==> call_ensures(delete, (&addr,), Ok::<bool, DbError>(found)),
        r matches Err(error) ==> (error matches NetError::Db(reason) && call_ensures(
            delete,
            (&addr,),
            Err::<bool, DbError>(reason),
        )),
{
}

} // verus!
