//! One round of dialing every peer that the node knows.
use crate::net::connect::{dials_known, joins, PeerDial};
use crate::net::error::{DbError, NetError};
use crate::net::peers::{contains_addr, is_peer, position, PeerInfoForward};
use crate::types::SocketAddr;
use vstd::prelude::*;

verus! {

/// A round in which every known peer, and every seed node, is dialed once.
pub struct DialRound {
    pending: Vec<SocketAddr>,
    next: usize,
    dialed: usize,
}

/// Where a round stands.
pub struct DialState {
    /// The addresses of the round, in the order in which they are dialed.
    pub pending: Seq<SocketAddr>,
    /// How many of them were dealt with.
    pub next: int,
    /// How many connections started.
    pub dialed: int,
}

impl View for DialRound {
    type V = DialState;

    closed spec fn view(&self) -> DialState {
        DialState { pending: self.pending@, next: self.next as int, dialed: self.dialed as int }
    }
}

impl DialState {
    /// No address is dialed twice in a round.
    pub open spec fn wf(self) -> bool {
        &&& self.pending.no_duplicates()
        &&& 0 <= self.dialed <= self.next <= self.pending.len()
    }
}

/// Whether `after` is `before`, with those of `more` appended that were missing.
pub open spec fn extends(
    before: Seq<SocketAddr>,
    more: Seq<SocketAddr>,
    after: Seq<SocketAddr>,
) -> bool {
    &&& before.is_prefix_of(after)
    &&& after.no_duplicates()
    &&& forall|a: SocketAddr| #[trigger]
        after.contains(a) <==> before.contains(a) || more.contains(a)
}

/// Whether an address was dialed anew.
pub open spec fn started(outcome: Result<bool, NetError>) -> bool {
    outcome matches Ok(true)
}

/// State of a round after the next address was dealt with.
pub open spec fn after_report(state: DialState, outcome: Result<bool, NetError>) -> DialState {
    DialState {
        next: state.next + 1,
        dialed: if started(outcome) {
            state.dialed + 1
        } else {
            state.dialed
        },
        ..state
    }
}

/// Whether `r` is the round that begins with the `known` peers. Where these could not be
/// read, there is none.
pub open spec fn begins(
    known: Result<Vec<SocketAddr>, DbError>,
    r: Result<DialRound, NetError>,
) -> bool {
    match known {
        Ok(addrs) => {
            &&& r matches Ok(round)
            &&& round@.wf()
            &&& extends(Seq::empty(), addrs@, round@.pending)
            &&& round@.next == 0
            &&& round@.dialed == 0
        },
        Err(error) => r == Err::<DialRound, NetError>(NetError::Db(error)),
    }
}

/// Appends those of `more` that are missing.
fn extend_distinct(addrs: &mut Vec<SocketAddr>, more: &Vec<SocketAddr>)
    requires
        old(addrs)@.no_duplicates(),
    ensures
        extends(old(addrs)@, more@, final(addrs)@),
{
    let ghost before = addrs@;
    let mut i: usize = 0;
    while i < more.len()
        invariant
            i <= more.len(),
            extends(before, more@.take(i as int), addrs@),
        decreases more.len() - i,
    {
        let addr = more[i];
        let ghost sofar = addrs@;
        let ghost taken = more@.take(i as int);
        let ghost upto = more@.take(i + 1);
        assert(upto == taken.push(addr));
        let seen = contains_addr(addrs, &addr);
        if !seen {
            addrs.push(addr);
        }
        proof {
            assert forall|a: SocketAddr| #[trigger]
                addrs@.contains(a) <==> before.contains(a) || upto.contains(a) by {
                if taken.contains(a) {
                    let k = choose|k: int| 0 <= k < taken.len() && taken[k] == a;
                    assert(upto[k] == a);
                }
                if upto.contains(a) && a != addr {
                    let k = choose|k: int| 0 <= k < upto.len() && upto[k] == a;
                    assert(taken[k] == a);
                }
                assert(upto[i as int] == addr);
                if sofar.contains(a) {
                    let k = choose|k: int| 0 <= k < sofar.len() && sofar[k] == a;
                    assert(addrs@[k] == a);
                }
                if addrs@.contains(a) && !sofar.contains(a) {
                    let k = choose|k: int| 0 <= k < addrs@.len() && addrs@[k] == a;
                    if k < sofar.len() {
                        assert(sofar[k] == a);
                    }
                    assert(a == addr);
                }
                if !seen {
                    assert(addrs@[sofar.len() as int] == addr);
                }
            }
        }
        i = i + 1;
    }
    assert(more@.take(i as int) == more@);
}

impl DialRound {
    /// Begins a round with the peers that the database knows. Without them there is
    /// no round.
    pub fn begin(known: Result<Vec<SocketAddr>, DbError>) -> (r: Result<DialRound, NetError>)
        ensures
            begins(known, r),
    {
        match known {
            Ok(known) => {
                let mut pending: Vec<SocketAddr> = Vec::new();
                extend_distinct(&mut pending, &known);
                Ok(DialRound { pending, next: 0, dialed: 0 })
            },
            Err(error) => Err(NetError::Db(error)),
        }
    }

    /// Adds the addresses that the seed nodes have now. If they were not found, the
    /// round goes on without them, and the error is handed back to be logged.
    pub fn add_seeds(&mut self, seeds: Result<Vec<SocketAddr>, NetError>) -> (r: Option<NetError>)
        requires
            old(self)@.wf(),
        ensures
            final(self)@.wf(),
            final(self)@.next == old(self)@.next,
            final(self)@.dialed == old(self)@.dialed,
            match seeds {
                Ok(addrs) => r is None && extends(
                    old(self)@.pending,
                    addrs@,
                    final(self)@.pending,
                ),
                Err(error) => r == Some(error) && final(self)@.pending == old(self)@.pending,
            },
    {
        match seeds {
            Ok(addrs) => {
                extend_distinct(&mut self.pending, &addrs);
                None
            },
            Err(error) => Some(error),
        }
    }

    /// The address to dial next. `None` when the round is over.
    pub fn current(&self) -> (r: Option<SocketAddr>)
        requires
            self@.wf(),
        ensures
            r == if self@.next < self@.pending.len() {
                Some(self@.pending[self@.next])
            } else {
                None
            },
    {
        if self.next < self.pending.len() {
            Some(self.pending[self.next])
        } else {
            None
        }
    }

    /// Takes in what came of the current address: `Ok(true)` if a connection started,
    /// `Ok(false)` if the peer was connected already. An error ends nothing: it is
    /// handed back to be logged.
    pub fn report(&mut self, outcome: Result<bool, NetError>) -> (r: Option<NetError>)
        requires
            old(self)@.wf(),
            old(self)@.next < old(self)@.pending.len(),
        ensures
            final(self)@.wf(),
            final(self)@ == after_report(old(self)@, outcome),
            match outcome {
                Ok(_) => r is None,
                Err(error) => r == Some(error),
            },
    {
        assert(self.next < self.pending.len());
        self.next = self.next + 1;
        match outcome {
            Ok(started) => {
                if started {
                    self.dialed = self.dialed + 1;
                }
                None
            },
            Err(error) => Some(error),
        }
    }

    /// The number of connections that started.
    pub fn dialed(&self) -> (r: usize)
        ensures
            r == self@.dialed,
    {
        self.dialed
    }
}

/// State of a round after the next `outcomes.len()` addresses were dealt with.
pub open spec fn after_reports(state: DialState, outcomes: Seq<Result<bool, NetError>>) -> DialState
    decreases outcomes.len(),
{
    if outcomes.len() == 0 {
        state
    } else {
        after_report(after_reports(state, outcomes.drop_last()), outcomes.last())
    }
}

/// How many of the outcomes are a connection that started.
pub open spec fn count_started(outcomes: Seq<Result<bool, NetError>>) -> int
    decreases outcomes.len(),
{
    if outcomes.len() == 0 {
        0
    } else {
        count_started(outcomes.drop_last()) + if started(outcomes.last()) {
            1int
        } else {
            0int
        }
    }
}

/// A round hands its addresses out one by one and counts the connections that
/// started: after `k` outcomes it stands at its `k`th address, and an address that
/// failed does not keep the others from being dialed.
pub proof fn a_round_deals_with_every_address_once(
    state: DialState,
    outcomes: Seq<Result<bool, NetError>>,
)
    requires
        state.wf(),
        state.next == 0,
        state.dialed == 0,
        outcomes.len() <= state.pending.len(),
    ensures
        after_reports(state, outcomes).wf(),
        after_reports(state, outcomes).pending == state.pending,
        after_reports(state, outcomes).next == outcomes.len(),
        after_reports(state, outcomes).dialed == count_started(outcomes),
    decreases outcomes.len(),
{
    if outcomes.len() > 0 {
        a_round_deals_with_every_address_once(state, outcomes.drop_last());
    }
}

/// Whether dialing `addr`, from the peers `before` to the peers `after`, came to `outcome`.
/// A peer that may be dialed is added once its connection began and it was recorded.
pub open spec fn dial_came_to<H>(
    before: Seq<(SocketAddr, H)>,
    after: Seq<(SocketAddr, H)>,
    addr: SocketAddr,
    magic: Seq<u8>,
    outcome: Result<bool, NetError>,
) -> bool {
    exists|r: Result<Option<PeerDial>, NetError>| #[trigger]
        dials_known(r, is_peer(before, addr), addr, magic) && match r {
            Ok(None) => outcome == Ok::<bool, NetError>(false) && after == before,
            Err(error) => outcome == Err::<bool, NetError>(error) && after == before,
            Ok(Some(dial)) => {
                ||| outcome matches Err(NetError::Connect(_)) && after == before
                ||| outcome matches Err(NetError::Db(_)) && after == before
                ||| exists|joined: Result<PeerInfoForward, NetError>, handle: H| #[trigger]
                    joins(joined, before, after, dial.addr(), handle) && outcome == match joined {
                        Ok(_) => Ok::<bool, NetError>(true),
                        Err(error) => Err(error),
                    }
            },
        }
}

/// Whether the addresses of `state` were dialed one after the other, where `peers[i]` are the
/// peers before the `i`th, and came to `outcomes`.
pub open spec fn round_over<H>(
    state: DialState,
    peers: Seq<Seq<(SocketAddr, H)>>,
    magic: Seq<u8>,
    outcomes: Seq<Result<bool, NetError>>,
) -> bool {
    &&& state.wf()
    &&& state.next == 0
    &&& state.dialed == 0
    &&& outcomes.len() <= state.pending.len()
    &&& peers.len() == outcomes.len() + 1
    &&& forall|i: int|
        #![trigger outcomes[i]]
        0 <= i < outcomes.len() ==> dial_came_to(
            peers[i],
            peers[i + 1],
            state.pending[i],
            magic,
            outcomes[i],
        )
}

/// A round counts the peers that it adds. A peer that is connected already is not dialed and
/// not counted.
pub proof fn a_round_counts_the_peers_it_adds<H>(
    state: DialState,
    peers: Seq<Seq<(SocketAddr, H)>>,
    magic: Seq<u8>,
    outcomes: Seq<Result<bool, NetError>>,
)
    requires
        round_over(state, peers, magic, outcomes),
    ensures
        after_reports(state, outcomes).dialed == peers.last().len() - peers.first().len(),
        forall|i: int|
            #![trigger outcomes[i]]
            0 <= i < outcomes.len() ==> {
                &&& is_peer(peers[i], state.pending[i]) <==> outcomes[i] == Ok::<bool, NetError>(
                    false,
                )
                &&& started(outcomes[i]) ==> is_peer(peers[i + 1], state.pending[i])
                &&& !started(outcomes[i]) ==> peers[i + 1] == peers[i]
            },
    decreases outcomes.len(),
{
    assert forall|i: int| #![trigger outcomes[i]] 0 <= i < outcomes.len() implies {
        &&& is_peer(peers[i], state.pending[i]) <==> outcomes[i] == Ok::<bool, NetError>(false)
        &&& started(outcomes[i]) ==> is_peer(peers[i + 1], state.pending[i])
        &&& !started(outcomes[i]) ==> peers[i + 1] == peers[i]
        &&& peers[i + 1].len() == peers[i].len() + if started(outcomes[i]) {
            1int
        } else {
            0int
        }
    } by {
        let addr = state.pending[i];
        assert(dial_came_to(peers[i], peers[i + 1], addr, magic, outcomes[i]));
        if started(outcomes[i]) {
            assert(position(peers[i + 1], addr, peers[i].len() as int));
        }
    }
    if outcomes.len() > 0 {
        let before = outcomes.drop_last();
        assert forall|i: int| #![trigger before[i]] 0 <= i < before.len() implies dial_came_to(
            peers.drop_last()[i],
            peers.drop_last()[i + 1],
            state.pending[i],
            magic,
            before[i],
        ) by {
            assert(before[i] == outcomes[i]);
        }
        a_round_counts_the_peers_it_adds(state, peers.drop_last(), magic, before);
        assert(outcomes.last() == outcomes[outcomes.len() - 1]);
    }
}

/// A round in which every peer is connected already starts no connection, and leaves the
/// connections as they are.
pub proof fn connected_peers_are_not_dialed<H>(
    state: DialState,
    peers: Seq<Seq<(SocketAddr, H)>>,
    magic: Seq<u8>,
    outcomes: Seq<Result<bool, NetError>>,
)
    requires
        round_over(state, peers, magic, outcomes),
        forall|i: int|
            #![trigger state.pending[i]]
            0 <= i < outcomes.len() ==> is_peer(peers.first(), state.pending[i]),
    ensures
        after_reports(state, outcomes).dialed == 0,
        peers.last() == peers.first(),
    decreases outcomes.len(),
{
    a_round_counts_the_peers_it_adds(state, peers, magic, outcomes);
    if outcomes.len() > 0 {
        let before = outcomes.drop_last();
        assert forall|i: int| #![trigger before[i]] 0 <= i < before.len() implies dial_came_to(
            peers.drop_last()[i],
            peers.drop_last()[i + 1],
            state.pending[i],
            magic,
            before[i],
        ) by {
            assert(before[i] == outcomes[i]);
        }
        connected_peers_are_not_dialed(state, peers.drop_last(), magic, before);
        let last = outcomes.len() - 1;
        assert(is_peer(peers[last], state.pending[last]));
        assert(!started(outcomes[last]));
    }
}

/// A seed node that moved is dialed at its new address, whatever address the
/// database holds for it, and every known peer is dialed too.
pub proof fn a_moved_seed_is_dialed_at_the_new_address(
    known: Seq<SocketAddr>,
    seeds: Seq<SocketAddr>,
    first: Seq<SocketAddr>,
    pending: Seq<SocketAddr>,
    addr: SocketAddr,
)
    requires
        extends(Seq::empty(), known, first),
        extends(first, seeds, pending),
    ensures
        pending.contains(addr) <==> known.contains(addr) || seeds.contains(addr),
        pending.no_duplicates(),
{
    assert(first.contains(addr) <==> known.contains(addr));
}

/// A round counts an address if and only if a connection to it started, goes on to the next
/// one whatever came of it, and never changes which addresses it has.
pub proof fn a_report_counts_a_started_connection(state: DialState, outcome: Result<bool, NetError>)
    ensures
        ({
            let after = after_report(state, outcome);
            &&& after.pending == state.pending
            &&& after.next == state.next + 1
            &&& outcome == Ok::<bool, NetError>(true) ==> after.dialed == state.dialed + 1
            &&& outcome == Ok::<bool, NetError>(false) ==> after.dialed == state.dialed
            &&& outcome is Err ==> after.dialed == state.dialed
        }),
{
}

/// A round begins with every known peer, each once, and with no other; with none of them
/// dealt with, and no connection started.
pub proof fn a_round_begins_with_the_known_peers(
    known: Result<Vec<SocketAddr>, DbError>,
    r: Result<DialRound, NetError>,
    addr: SocketAddr,
)
    requires
        begins(known, r),
    ensures
        r is Ok <==> known is Ok,
        known matches Ok(addrs) ==> {
            let round = r->Ok_0@;
            &&& round.pending.contains(addr) <==> addrs@.contains(addr)
            &&& round.pending.no_duplicates()
            &&& round.next == 0
            &&& round.dialed == 0
        },
        known matches Err(error) ==> r == Err::<DialRound, NetError>(NetError::Db(error)),
{
}

} // verus!
