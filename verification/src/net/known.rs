//! The known peers and the active ones.
use crate::net::accept::admits;
use crate::net::connect::may_dial;
use crate::net::peers::{added, distinct, is_peer, position, removed};
use crate::net::startup::{
    a_started_node_dialed_every_known_peer, run, Databases, Stage, StartupEvent,
};
use crate::types::{Network, SocketAddr};
use vstd::prelude::*;

verus! {

/// A node among its peers.
pub struct Node<H> {
    /// The active peers.
    pub peers: Seq<(SocketAddr, H)>,
    /// The peers in the database.
    pub known: Set<SocketAddr>,
    /// The peers that were recorded, and for which a task may be started.
    pub starting: Set<SocketAddr>,
}

/// Something that happens to the peers of a node. Between a peer being recorded and its
/// connection being added, anything else may happen.
pub enum PeerStep<H> {
    /// A peer is dialed, its connection `began` or not, and it was `saved` or not.
    Dial { addr: SocketAddr, began: bool, saved: bool },
    /// A peer opens a connection that is `closed` by then or not, and it was `saved` or not.
    Accept { addr: SocketAddr, closed: bool, saved: bool },
    /// The connection of a recorded peer is added.
    Add { addr: SocketAddr, handle: H },
    /// A connection is ended.
    Remove { addr: SocketAddr },
    /// A peer is deleted from the database.
    Forget { addr: SocketAddr },
}

/// The node after `addr` was recorded.
pub open spec fn recorded<H>(node: Node<H>, addr: SocketAddr) -> Node<H> {
    Node { known: node.known.insert(addr), starting: node.starting.insert(addr), ..node }
}

/// The node after a step.
pub open spec fn after_step<H>(node: Node<H>, step: PeerStep<H>) -> Node<H> {
    match step {
        PeerStep::Dial { addr, began, saved } => {
            if may_dial(is_peer(node.peers, addr), addr) && began && saved {
                recorded(node, addr)
            } else {
                node
            }
        },
        PeerStep::Accept { addr, closed, saved } => {
            if admits(is_peer(node.peers, addr), closed) && saved {
                recorded(node, addr)
            } else {
                node
            }
        },
        PeerStep::Add { addr, handle } => {
            if node.starting.contains(addr) {
                Node { peers: added(node.peers, addr, handle), ..node }
            } else {
                node
            }
        },
        PeerStep::Remove { addr } => Node { peers: removed(node.peers, addr), ..node },
        PeerStep::Forget { addr } => Node { known: node.known.remove(addr), ..node },
    }
}

/// The node after all of `steps`.
pub open spec fn after_steps<H>(node: Node<H>, steps: Seq<PeerStep<H>>) -> Node<H>
    decreases steps.len(),
{
    if steps.len() == 0 {
        node
    } else {
        after_step(after_steps(node, steps.drop_last()), steps.last())
    }
}

/// Whether every active peer, and every peer about to become one, is known.
pub open spec fn only_known<H>(node: Node<H>) -> bool {
    &&& forall|a: SocketAddr| #[trigger] is_peer(node.peers, a) ==> node.known.contains(a)
    &&& node.starting.subset_of(node.known)
}

/// A step other than forgetting a peer keeps the active peers known.
proof fn step_keeps_known<H>(node: Node<H>, step: PeerStep<H>)
    requires
        only_known(node),
        !(step is Forget),
    ensures
        only_known(after_step(node, step)),
{
    let after = after_step(node, step);
    assert forall|a: SocketAddr| #[trigger] is_peer(after.peers, a) implies after.known.contains(
        a,
    ) by {
        let i = choose|i: int| position(after.peers, a, i);
        let k = match step {
            PeerStep::Remove { addr } => {
                let gone = choose|k: int| position(node.peers, addr, k);
                if is_peer(node.peers, addr) && gone <= i {
                    i + 1
                } else {
                    i
                }
            },
            _ => i,
        };
        if k < node.peers.len() {
            assert(after.peers[i] == node.peers[k]);
            assert(position(node.peers, a, k));
            assert(is_peer(node.peers, a));
        } else {
            assert(node.starting.contains(a));
        }
    }
}

/// Every active peer is a known one: whatever is dialed, accepted, added and removed, in any
/// order, a peer is in the database before it becomes active, as long as none is forgotten.
pub proof fn every_active_peer_is_known<H>(node: Node<H>, steps: Seq<PeerStep<H>>)
    requires
        only_known(node),
        forall|i: int| #![trigger steps[i]] 0 <= i < steps.len() ==> !(steps[i] is Forget),
    ensures
        only_known(after_steps(node, steps)),
    decreases steps.len(),
{
    if steps.len() > 0 {
        let before = steps.drop_last();
        assert forall|i: int| #![trigger before[i]] 0 <= i < before.len() implies !(
        before[i] is Forget) by {
            assert(before[i] == steps[i]);
        }
        every_active_peer_is_known(node, before);
        assert(steps.last() == steps[steps.len() - 1]);
        step_keeps_known(after_steps(node, before), steps.last());
    }
}

/// The peers of a node to which connections were added in order, each with its handle.
pub open spec fn joined<H>(active: Seq<SocketAddr>, handles: Seq<H>) -> Seq<(SocketAddr, H)>
    decreases active.len(),
{
    if active.len() == 0 {
        Seq::empty()
    } else {
        added(joined(active.drop_last(), handles), active.last(), handles[active.len() - 1])
    }
}

/// Connections to distinct addresses are all there, in order.
proof fn joined_in_order<H>(active: Seq<SocketAddr>, handles: Seq<H>)
    requires
        active.no_duplicates(),
    ensures
        joined(active, handles).len() == active.len(),
        forall|i: int|
            #![trigger joined(active, handles)[i]]
            0 <= i < active.len() ==> joined(active, handles)[i].0 == active[i],
    decreases active.len(),
{
    if active.len() > 0 {
        let before = active.drop_last();
        joined_in_order(before, handles);
        let peers = joined(before, handles);
        if is_peer(peers, active.last()) {
            let i = choose|i: int| position(peers, active.last(), i);
            assert(peers[i].0 == active[i]);
        }
    }
}

/// A node that has started is connected to every peer that it knows, once, and to no other.
/// So `every_active_peer_is_known` holds of it from then on.
pub proof fn a_started_node_has_the_peers_it_knows<H>(
    network: Network,
    before: Databases,
    events: Seq<StartupEvent>,
    handles: Seq<H>,
)
    requires
        run(network, before, events) is Some,
        run(network, before, events)->Some_0.0.stage == Stage::Done,
    ensures
        ({
            let h = run(network, before, events)->Some_0.1;
            let peers = joined(h.active, handles);
            let known = h.saved.known->Some_0;
            &&& h.saved.known is Some
            &&& distinct(peers)
            &&& forall|a: SocketAddr| #[trigger] is_peer(peers, a) <==> known.contains(a)
            &&& only_known(Node { peers, known, starting: Set::empty() })
        }),
{
    a_started_node_dialed_every_known_peer(network, before, events);
    let h = run(network, before, events)->Some_0.1;
    let peers = joined(h.active, handles);
    let known = h.saved.known->Some_0;
    joined_in_order(h.active, handles);
    assert(h.active.to_set() == known);
    assert forall|a: SocketAddr| #[trigger] is_peer(peers, a) <==> known.contains(a) by {
        if is_peer(peers, a) {
            let i = choose|i: int| position(peers, a, i);
            assert(peers[i].0 == h.active[i]);
            assert(h.active.to_set().contains(a));
        }
        if known.contains(a) {
            assert(h.active.contains(a));
            let i = choose|i: int| 0 <= i < h.active.len() && h.active[i] == a;
            assert(peers[i].0 == h.active[i]);
            assert(position(peers, a, i));
        }
    }
    assert forall|i: int, j: int|
        #![trigger peers[i], peers[j]]
        0 <= i < j < peers.len() implies peers[i].0 != peers[j].0 by {
        assert(peers[i].0 == h.active[i]);
        assert(peers[j].0 == h.active[j]);
    }
}

/// Forgetting a peer deletes that peer from the database and no other, and ends no
/// connection. Forgetting it twice is the same as once.
pub proof fn forgetting_ends_no_connection<H>(node: Node<H>, addr: SocketAddr)
    ensures
        ({
            let after = after_step(node, PeerStep::Forget { addr });
            &&& after.peers == node.peers
            &&& !after.known.contains(addr)
            &&& forall|a: SocketAddr|
                a != addr ==> (#[trigger] after.known.contains(a) <==> node.known.contains(a))
            &&& after_step(after, PeerStep::Forget { addr }) == after
        }),
{
    let after = after_step(node, PeerStep::Forget { addr });
    assert(after.known.remove(addr) =~= after.known);
}

} // verus!
