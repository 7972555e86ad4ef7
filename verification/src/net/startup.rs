//! How a node opens its peer database and dials the peers it knows.
use crate::net::error::{ConnectError, DbError, NetError};
use crate::net::seed::{forknet_seeds, signet_seeds};
use crate::types::{Network, SocketAddr};
use vstd::prelude::*;

verus! {

/// Name of the database of known peers.
pub const KNOWN_PEERS_DB: &'static str = "known_peers";

/// Name of the database that holds the version of the node that wrote it.
pub const VERSION_DB: &'static str = "net_version";

/// How far the startup has come.
#[derive(Clone, Copy, Debug, PartialEq, Eq, Structural)]
pub enum Stage {
    Opening,
    Creating,
    FindingSeeds,
    PuttingSeed,
    ReadingVersion,
    PuttingVersion,
    Committing,
    Listing,
    Connecting,
    Deleting,
    Done,
}

/// What the startup does next. All up to `Commit` happens in one transaction.
#[derive(Clone, Copy, Debug, PartialEq, Eq, Structural)]
pub enum StartupAction {
    /// Open the database of known peers, if it exists.
    OpenKnownPeers,
    /// Create the database of known peers.
    CreateKnownPeers,
    /// Find the seed nodes of the network.
    FindSeeds(Network),
    /// Write a known peer.
    PutKnownPeer(SocketAddr),
    /// Read the version, from a database that is created if it is missing.
    ReadVersion,
    /// Write the version of this node.
    PutVersion,
    /// Commit the transaction.
    Commit,
    /// List the known peers.
    ListKnownPeers,
    /// Connect to a peer.
    ConnectPeer(SocketAddr),
    /// Delete a known peer, in a transaction of its own.
    DeleteKnownPeer(SocketAddr),
    /// Nothing: the node has started.
    Finish,
}

/// What came of an action.
pub enum StartupEvent {
    /// The database failed.
    Failed(DbError),
    /// It was done.
    Done,
    /// The database of known peers was opened, or does not exist.
    Opened(bool),
    /// The seed nodes were found, or not.
    Seeds(Result<Vec<SocketAddr>, NetError>),
    /// A version was found, or none.
    Version(bool),
    /// The known peers.
    Listed(Vec<SocketAddr>),
    /// The connection began, or not.
    Connected(Result<(), NetError>),
}

/// The startup of a node.
pub struct Startup {
    network: Network,
    stage: Stage,
    queue: Vec<SocketAddr>,
    at: usize,
}

/// What the startup goes by.
pub struct StartupState {
    pub network: Network,
    pub stage: Stage,
    /// The seed nodes to write, or the peers to connect to.
    pub queue: Seq<SocketAddr>,
    /// How many of them were dealt with.
    pub at: int,
}

impl View for Startup {
    type V = StartupState;

    closed spec fn view(&self) -> StartupState {
        StartupState {
            network: self.network,
            stage: self.stage,
            queue: self.queue@,
            at: self.at as int,
        }
    }
}

impl StartupState {
    /// Where an address is at hand, it is there.
    pub open spec fn wf(self) -> bool {
        match self.stage {
            Stage::PuttingSeed | Stage::Connecting | Stage::Deleting => 0 <= self.at
                < self.queue.len(),
            _ => true,
        }
    }

    /// What to do next.
    pub open spec fn action(self) -> StartupAction {
        match self.stage {
            Stage::Opening => StartupAction::OpenKnownPeers,
            Stage::Creating => StartupAction::CreateKnownPeers,
            Stage::FindingSeeds => StartupAction::FindSeeds(self.network),
            Stage::PuttingSeed => StartupAction::PutKnownPeer(self.queue[self.at]),
            Stage::ReadingVersion => StartupAction::ReadVersion,
            Stage::PuttingVersion => StartupAction::PutVersion,
            Stage::Committing => StartupAction::Commit,
            Stage::Listing => StartupAction::ListKnownPeers,
            Stage::Connecting => StartupAction::ConnectPeer(self.queue[self.at]),
            Stage::Deleting => StartupAction::DeleteKnownPeer(self.queue[self.at]),
            Stage::Done => StartupAction::Finish,
        }
    }

    /// The same startup at another stage.
    pub open spec fn to(self, stage: Stage) -> StartupState {
        StartupState { stage, ..self }
    }

    /// Writes the seed nodes from `at` on, and goes on to the version after the last.
    pub open spec fn seeding(self, queue: Seq<SocketAddr>, at: int) -> StartupState {
        let stage = if at < queue.len() {
            Stage::PuttingSeed
        } else {
            Stage::ReadingVersion
        };
        StartupState { stage, queue, at, ..self }
    }

    /// Connects to the peers from `at` on, and is done after the last.
    pub open spec fn connecting(self, queue: Seq<SocketAddr>, at: int) -> StartupState {
        let stage = if at < queue.len() {
            Stage::Connecting
        } else {
            Stage::Done
        };
        StartupState { stage, queue, at, ..self }
    }
}

/// Whether an event can come of the action of a stage.
pub open spec fn answers(stage: Stage, event: StartupEvent) -> bool {
    match event {
        StartupEvent::Failed(_) => stage != Stage::FindingSeeds && stage != Stage::Connecting
            && stage != Stage::Done,
        StartupEvent::Done => stage == Stage::Creating || stage == Stage::PuttingSeed || stage
            == Stage::PuttingVersion || stage == Stage::Committing || stage == Stage::Deleting,
        StartupEvent::Opened(_) => stage == Stage::Opening,
        StartupEvent::Seeds(_) => stage == Stage::FindingSeeds,
        StartupEvent::Version(_) => stage == Stage::ReadingVersion,
        StartupEvent::Listed(_) => stage == Stage::Listing,
        StartupEvent::Connected(_) => stage == Stage::Connecting,
    }
}

/// Whether the endpoint found that it can never reach a peer.
pub open spec fn unreachable_address(error: NetError) -> bool {
    error matches NetError::Connect(ConnectError::InvalidRemoteAddress(_))
}

/// The startup after an event. A database error, seed nodes that are not found, and a
/// connection that fails all end it, except that a known peer at an address which can
/// never be reached is deleted.
pub open spec fn after_event(state: StartupState, event: StartupEvent) -> Result<
    StartupState,
    NetError,
> {
    match event {
        StartupEvent::Failed(error) => Err(NetError::Db(error)),
        StartupEvent::Done => Ok(
            match state.stage {
                Stage::Creating => state.to(Stage::FindingSeeds),
                Stage::PuttingSeed => state.seeding(state.queue, state.at + 1),
                Stage::PuttingVersion => state.to(Stage::Committing),
                Stage::Committing => state.to(Stage::Listing),
                Stage::Deleting => state.connecting(state.queue, state.at + 1),
                _ => state,
            },
        ),
        StartupEvent::Opened(found) => Ok(
            if found {
                state.to(Stage::ReadingVersion)
            } else {
                state.to(Stage::Creating)
            },
        ),
        StartupEvent::Seeds(Ok(addrs)) => Ok(state.seeding(addrs@, 0)),
        StartupEvent::Seeds(Err(error)) => Err(error),
        StartupEvent::Version(found) => Ok(
            if found {
                state.to(Stage::Committing)
            } else {
                state.to(Stage::PuttingVersion)
            },
        ),
        StartupEvent::Listed(addrs) => Ok(state.connecting(addrs@, 0)),
        StartupEvent::Connected(Ok(_)) => Ok(state.connecting(state.queue, state.at + 1)),
        StartupEvent::Connected(Err(error)) => if unreachable_address(error) {
            Ok(state.to(Stage::Deleting))
        } else {
            Err(error)
        },
    }
}

impl Startup {
    /// A startup that has done nothing yet.
    pub fn new(network: Network) -> (startup: Startup)
        ensures
            startup@.wf(),
            startup@ == initial(network),
    {
        Startup { network, stage: Stage::Opening, queue: Vec::new(), at: 0 }
    }

    /// What to do next.
    pub fn action(&self) -> (r: StartupAction)
        requires
            self@.wf(),
        ensures
            r == self@.action(),
    {
        match self.stage {
            Stage::Opening => StartupAction::OpenKnownPeers,
            Stage::Creating => StartupAction::CreateKnownPeers,
            Stage::FindingSeeds => StartupAction::FindSeeds(self.network),
            Stage::PuttingSeed => StartupAction::PutKnownPeer(self.queue[self.at]),
            Stage::ReadingVersion => StartupAction::ReadVersion,
            Stage::PuttingVersion => StartupAction::PutVersion,
            Stage::Committing => StartupAction::Commit,
            Stage::Listing => StartupAction::ListKnownPeers,
            Stage::Connecting => StartupAction::ConnectPeer(self.queue[self.at]),
            Stage::Deleting => StartupAction::DeleteKnownPeer(self.queue[self.at]),
            Stage::Done => StartupAction::Finish,
        }
    }

    /// Writes the seed nodes from the current one on.
    fn seed(&mut self)
        ensures
            final(self)@ == old(self)@.seeding(old(self)@.queue, old(self)@.at),
    {
        self.stage = if self.at < self.queue.len() {
            Stage::PuttingSeed
        } else {
            Stage::ReadingVersion
        };
    }

    /// Connects to the peers from the current one on.
    fn connect(&mut self)
        ensures
            final(self)@ == old(self)@.connecting(old(self)@.queue, old(self)@.at),
    {
        self.stage = if self.at < self.queue.len() {
            Stage::Connecting
        } else {
            Stage::Done
        };
    }

    /// Takes in what came of the action at hand. An error ends the startup.
    pub fn report(&mut self, event: StartupEvent) -> (r: Result<(), NetError>)
        requires
            old(self)@.wf(),
            answers(old(self)@.stage, event),
        ensures
            match after_event(old(self)@, event) {
                Ok(state) => r is Ok && final(self)@ == state && state.wf(),
                Err(error) => r == Err::<(), NetError>(error) && final(self)@ == old(self)@,
            },
            r is Err <==> {
                ||| event is Failed
                ||| event matches StartupEvent::Seeds(Err(_))
                ||| event matches StartupEvent::Connected(Err(error)) && !(error matches
                    NetError::Connect(ConnectError::InvalidRemoteAddress(_)))
            },
            final(self)@.network == old(self)@.network,
    {
        match event {
            StartupEvent::Failed(error) => {
                return Err(NetError::Db(error));
            },
            StartupEvent::Done => match self.stage {
                Stage::Creating => {
                    self.stage = Stage::FindingSeeds;
                },
                Stage::PuttingSeed => {
                    assert(self.at < self.queue.len());
                    self.at = self.at + 1;
                    self.seed();
                },
                Stage::PuttingVersion => {
                    self.stage = Stage::Committing;
                },
                Stage::Committing => {
                    self.stage = Stage::Listing;
                },
                Stage::Deleting => {
                    assert(self.at < self.queue.len());
                    self.at = self.at + 1;
                    self.connect();
                },
                _ => {},
            },
            StartupEvent::Opened(found) => {
                self.stage = if found {
                    Stage::ReadingVersion
                } else {
                    Stage::Creating
                };
            },
            StartupEvent::Seeds(Ok(addrs)) => {
                self.queue = addrs;
                self.at = 0;
                self.seed();
            },
            StartupEvent::Seeds(Err(error)) => {
                return Err(error);
            },
            StartupEvent::Version(found) => {
                self.stage = if found {
                    Stage::Committing
                } else {
                    Stage::PuttingVersion
                };
            },
            StartupEvent::Listed(addrs) => {
                self.queue = addrs;
                self.at = 0;
                self.connect();
            },
            StartupEvent::Connected(Ok(_)) => {
                assert(self.at < self.queue.len());
                self.at = self.at + 1;
                self.connect();
            },
            StartupEvent::Connected(Err(error)) => match error {
                NetError::Connect(ConnectError::InvalidRemoteAddress(_)) => {
                    self.stage = Stage::Deleting;
                },
                _ => {
                    return Err(error);
                },
            },
        }
        Ok(())
    }
}

/// A startup that has done nothing yet.
pub open spec fn initial(network: Network) -> StartupState {
    StartupState { network, stage: Stage::Opening, queue: Seq::empty(), at: 0 }
}

/// What the databases hold.
pub struct Databases {
    /// The known peers, if their database exists.
    pub known: Option<Set<SocketAddr>>,
    /// Whether a version was written.
    pub version: bool,
}

/// What happened to the databases during a startup.
pub struct History {
    /// What they held when it began.
    pub before: Databases,
    /// What they hold.
    pub saved: Databases,
    /// What they will hold once the first transaction is committed.
    pub written: Databases,
    /// The seed nodes that were found.
    pub seeds: Seq<SocketAddr>,
    /// The peers that were dialed.
    pub dialed: Seq<SocketAddr>,
    /// The peers whose connection began, in order: the active peers.
    pub active: Seq<SocketAddr>,
    /// The peers that were dialed, but can never be reached.
    pub unreachable: Set<SocketAddr>,
}

/// A startup that begins with the databases as they are.
pub open spec fn beginning(before: Databases) -> History {
    History {
        before,
        saved: before,
        written: before,
        seeds: Seq::empty(),
        dialed: Seq::empty(),
        active: Seq::empty(),
        unreachable: Set::empty(),
    }
}

/// The seed nodes of a network whose seed nodes are fixed. Those of the others are looked up.
pub open spec fn fixed_seeds(network: Network) -> Option<Seq<SocketAddr>> {
    match network {
        Network::Signet => Some(signet_seeds()),
        Network::Forknet => Some(forknet_seeds()),
        Network::Regtest => Some(Seq::empty()),
        Network::Alphanet => None,
    }
}

/// Whether an event tells what the databases and the network really hold.
pub open spec fn truthful(state: StartupState, h: History, event: StartupEvent) -> bool {
    match event {
        StartupEvent::Opened(found) => found == (h.written.known is Some),
        StartupEvent::Version(found) => found == h.written.version,
        StartupEvent::Listed(addrs) => h.saved.known == Some(addrs@.to_set())
            && addrs@.no_duplicates(),
        StartupEvent::Seeds(Ok(addrs)) => fixed_seeds(state.network) matches Some(seeds) ==> addrs@
            == seeds,
        _ => true,
    }
}

/// The databases with one more known peer.
pub open spec fn with_peer(db: Databases, addr: SocketAddr) -> Databases {
    Databases { known: Some(db.known.unwrap_or(Set::empty()).insert(addr)), ..db }
}

/// The databases with one known peer less.
pub open spec fn without_peer(db: Databases, addr: SocketAddr) -> Databases {
    Databases { known: Some(db.known.unwrap_or(Set::empty()).remove(addr)), ..db }
}

/// What an action that came to `event` does. Whoever connects to a peer records it.
pub open spec fn effect(state: StartupState, h: History, event: StartupEvent) -> History {
    match (state.action(), event) {
        (StartupAction::CreateKnownPeers, StartupEvent::Done) => History {
            written: Databases { known: Some(Set::empty()), ..h.written },
            ..h
        },
        (StartupAction::FindSeeds(_), StartupEvent::Seeds(Ok(addrs))) => History {
            seeds: addrs@,
            ..h
        },
        (StartupAction::PutKnownPeer(addr), StartupEvent::Done) => History {
            written: with_peer(h.written, addr),
            ..h
        },
        (StartupAction::PutVersion, StartupEvent::Done) => History {
            written: Databases { version: true, ..h.written },
            ..h
        },
        (StartupAction::Commit, StartupEvent::Done) => History { saved: h.written, ..h },
        (StartupAction::ConnectPeer(addr), StartupEvent::Connected(Ok(_))) => History {
            saved: with_peer(h.saved, addr),
            dialed: h.dialed.push(addr),
            active: h.active.push(addr),
            ..h
        },
        (StartupAction::ConnectPeer(addr), StartupEvent::Connected(Err(_))) => History {
            dialed: h.dialed.push(addr),
            ..h
        },
        (StartupAction::DeleteKnownPeer(addr), StartupEvent::Done) => History {
            saved: without_peer(h.saved, addr),
            unreachable: h.unreachable.insert(addr),
            ..h
        },
        _ => h,
    }
}

/// Where a startup stands after `events`, each of which answered the action at hand
/// and was truthful. `None` if one was not, or ended the startup.
pub open spec fn run(
    network: Network,
    before: Databases,
    events: Seq<StartupEvent>,
) -> Option<(StartupState, History)>
    decreases events.len(),
{
    if events.len() == 0 {
        Some((initial(network), beginning(before)))
    } else {
        match run(network, before, events.drop_last()) {
            Some((state, h)) => if answers(state.stage, events.last()) && truthful(
                state,
                h,
                events.last(),
            ) {
                match after_event(state, events.last()) {
                    Ok(next) => Some((next, effect(state, h, events.last()))),
                    Err(_) => None,
                }
            } else {
                None
            },
            None => None,
        }
    }
}

/// The peers that the node knows before it dials: those of the database, or, if
/// there was none, the seed nodes.
pub open spec fn base(h: History) -> Set<SocketAddr> {
    match h.before.known {
        Some(known) => known,
        None => h.seeds.to_set(),
    }
}

/// What holds at each stage.
spec fn stage_holds(state: StartupState, h: History) -> bool {
    match state.stage {
        Stage::Opening => h.saved == h.before && h.written == h.before,
        Stage::Creating => {
            &&& h.saved == h.before
            &&& h.written == h.before
            &&& h.before.known is None
        },
        Stage::FindingSeeds => {
            &&& h.saved == h.before
            &&& h.before.known is None
            &&& h.written == (Databases { known: Some(Set::empty()), ..h.before })
        },
        Stage::PuttingSeed => {
            &&& h.saved == h.before
            &&& h.before.known is None
            &&& state.queue == h.seeds
            &&& 0 <= state.at < state.queue.len()
            &&& h.written == (Databases {
                known: Some(state.queue.take(state.at).to_set()),
                ..h.before
            })
        },
        Stage::ReadingVersion => {
            &&& h.saved == h.before
            &&& h.written == (Databases { known: Some(base(h)), ..h.before })
        },
        Stage::PuttingVersion => {
            &&& h.saved == h.before
            &&& h.written == (Databases { known: Some(base(h)), version: false })
        },
        Stage::Committing => {
            &&& h.saved == h.before
            &&& h.written == (Databases { known: Some(base(h)), version: true })
        },
        Stage::Listing => h.saved == (Databases { known: Some(base(h)), version: true }),
        Stage::Connecting | Stage::Deleting | Stage::Done => {
            &&& state.queue.no_duplicates()
            &&& state.queue.to_set() == base(h)
            &&& 0 <= state.at <= state.queue.len()
            &&& state.stage == Stage::Done ==> state.at == state.queue.len()
            &&& state.stage != Stage::Done ==> state.at < state.queue.len()
            &&& forall|a: SocketAddr| #[trigger]
                h.unreachable.contains(a) ==> state.queue.take(state.at).contains(a)
            &&& h.saved == (Databases {
                known: Some(base(h).difference(h.unreachable)),
                version: true,
            })
        },
    }
}

/// What was dialed and deleted at each stage.
spec fn dials_hold(state: StartupState, h: History) -> bool {
    match state.stage {
        Stage::Connecting | Stage::Done => h.dialed == state.queue.take(state.at),
        Stage::Deleting => h.dialed == state.queue.take(state.at + 1),
        _ => h.dialed.len() == 0 && h.unreachable == Set::<SocketAddr>::empty(),
    }
}

/// Which peers are active at each stage: those that were dealt with and can be reached.
spec fn active_holds(state: StartupState, h: History) -> bool {
    match state.stage {
        Stage::Connecting | Stage::Deleting | Stage::Done => {
            &&& h.active.no_duplicates()
            &&& forall|a: SocketAddr| #[trigger]
                h.active.contains(a) <==> state.queue.take(state.at).contains(a)
                    && !h.unreachable.contains(a)
        },
        _ => h.active.len() == 0,
    }
}

/// Which seed nodes were found at each stage: with a new database, those of the network.
spec fn seeds_hold(state: StartupState, h: History) -> bool {
    match state.stage {
        Stage::Opening | Stage::Creating | Stage::FindingSeeds => true,
        _ => h.before.known is None ==> (fixed_seeds(state.network) matches Some(seeds) ==> h.seeds
            == seeds),
    }
}

/// A step keeps which peers are active.
proof fn step_keeps_active(state: StartupState, h: History, event: StartupEvent)
    requires
        stage_holds(state, h),
        dials_hold(state, h),
        active_holds(state, h),
        answers(state.stage, event),
        truthful(state, h, event),
    ensures
        after_event(state, event) matches Ok(next) ==> active_holds(next, effect(state, h, event)),
{
    let after = effect(state, h, event);
    match after_event(state, event) {
        Ok(next) => match state.stage {
            Stage::Connecting | Stage::Deleting => {
                take_more(state.queue, state.at);
                let addr = state.queue[state.at];
                let less = state.queue.take(state.at);
                assert(!less.contains(addr));
                assert forall|a: SocketAddr| #[trigger]
                    less.push(addr).contains(a) <==> less.contains(a) || a == addr by {
                    push_contains(less, addr, a);
                }
                assert forall|a: SocketAddr| #[trigger]
                    h.active.push(addr).contains(a) <==> h.active.contains(a) || a == addr by {
                    push_contains(h.active, addr, a);
                }
                assert(!h.active.contains(addr));
                assert(h.active.push(addr).no_duplicates());
                assert(!h.unreachable.contains(addr));
            },
            _ => {},
        },
        Err(_) => {},
    }
}

/// What a sequence with one more element holds.
proof fn push_contains(s: Seq<SocketAddr>, last: SocketAddr, a: SocketAddr)
    ensures
        s.push(last).contains(a) <==> s.contains(a) || a == last,
{
    let more = s.push(last);
    assert(more[s.len() as int] == last);
    if s.contains(a) {
        let k = choose|k: int| 0 <= k < s.len() && s[k] == a;
        assert(more[k] == a);
    }
    if more.contains(a) {
        let k = choose|k: int| 0 <= k < more.len() && more[k] == a;
        if k < s.len() {
            assert(s[k] == a);
        }
    }
}

/// A step keeps what holds.
proof fn step_keeps(state: StartupState, h: History, event: StartupEvent)
    requires
        stage_holds(state, h),
        dials_hold(state, h),
        answers(state.stage, event),
        truthful(state, h, event),
    ensures
        after_event(state, event) matches Ok(next) ==> stage_holds(next, effect(state, h, event))
            && dials_hold(next, effect(state, h, event)),
{
    let after = effect(state, h, event);
    match after_event(state, event) {
        Ok(next) => match state.stage {
            Stage::FindingSeeds => {
                assert(next.queue.take(0).to_set() =~= Set::<SocketAddr>::empty());
                if next.queue.len() == 0 {
                    assert(next.queue.to_set() =~= Set::<SocketAddr>::empty());
                }
            },
            Stage::PuttingSeed => {
                take_more(state.queue, state.at);
                assert(state.queue.take(state.queue.len() as int) == state.queue);
            },
            Stage::Listing => {
                assert(next.queue.take(0) =~= after.dialed);
                assert(base(h).difference(Set::empty()) =~= base(h));
            },
            Stage::Connecting => {
                take_more(state.queue, state.at);
                let addr = state.queue[state.at];
                assert(state.queue.take(state.at + 1) == state.queue.take(state.at).push(addr));
                assert(state.queue.contains(addr));
                assert(!state.queue.take(state.at).contains(addr));
                assert(!h.unreachable.contains(addr));
                assert(base(h).contains(addr));
                assert(h.saved.known.unwrap().insert(addr) =~= h.saved.known.unwrap());
            },
            Stage::Deleting => {
                take_more(state.queue, state.at);
                let addr = state.queue[state.at];
                assert(state.queue.take(state.at + 1).contains(addr));
                assert(base(h).difference(h.unreachable).remove(addr) =~= base(h).difference(
                    h.unreachable.insert(addr),
                ));
            },
            _ => {},
        },
        Err(_) => {},
    }
}

/// One more element of a sequence.
proof fn take_more(s: Seq<SocketAddr>, i: int)
    requires
        0 <= i < s.len(),
    ensures
        s.take(i + 1) == s.take(i).push(s[i]),
        s.take(i + 1).to_set() == s.take(i).to_set().insert(s[i]),
        forall|a: SocketAddr| s.take(i).contains(a) ==> #[trigger] s.take(i + 1).contains(a),
        s.take(i + 1).contains(s[i]),
{
    let less = s.take(i);
    let more = s.take(i + 1);
    assert(more =~= less.push(s[i]));
    assert(more[i] == s[i]);
    assert forall|a: SocketAddr| less.contains(a) implies #[trigger] more.contains(a) by {
        let k = choose|k: int| 0 <= k < less.len() && less[k] == a;
        assert(more[k] == a);
    }
    assert forall|a: SocketAddr| #[trigger] more.contains(a) implies less.contains(a) || a
        == s[i] by {
        let k = choose|k: int| 0 <= k < more.len() && more[k] == a;
        if k < i {
            assert(less[k] == a);
        }
    }
    assert(more.to_set() =~= less.to_set().insert(s[i]));
}

/// What holds of every startup.
proof fn run_holds(network: Network, before: Databases, events: Seq<StartupEvent>)
    ensures
        run(network, before, events) matches Some((state, h)) ==> {
            &&& stage_holds(state, h)
            &&& dials_hold(state, h)
            &&& active_holds(state, h)
            &&& seeds_hold(state, h)
            &&& h.before == before
            &&& state.network == network
        },
    decreases events.len(),
{
    if events.len() > 0 {
        run_holds(network, before, events.drop_last());
        match run(network, before, events.drop_last()) {
            Some((state, h)) => {
                if answers(state.stage, events.last()) && truthful(state, h, events.last()) {
                    step_keeps(state, h, events.last());
                    step_keeps_active(state, h, events.last());
                }
            },
            None => {},
        }
    }
}

/// A node that has started has a version in its database, has dialed every peer that
/// it knew, each once, and knows those same peers, save for the ones that can never be
/// reached. It knew the peers of its database, or, if that was new, its seed nodes: those of
/// its network, where they are fixed. The peers that it still knows are its active peers,
/// each once.
pub proof fn a_started_node_dialed_every_known_peer(
    network: Network,
    before: Databases,
    events: Seq<StartupEvent>,
)
    requires
        run(network, before, events) is Some,
        run(network, before, events)->Some_0.0.stage == Stage::Done,
    ensures
        ({
            let h = run(network, before, events)->Some_0.1;
            let known = match before.known {
                Some(known) => known,
                None => h.seeds.to_set(),
            };
            &&& before.known is None ==> (fixed_seeds(network) matches Some(seeds) ==> h.seeds
                == seeds)
            &&& h.dialed.no_duplicates()
            &&& h.dialed.to_set() == known
            &&& h.unreachable.subset_of(known)
            &&& h.active.no_duplicates()
            &&& h.active.to_set() == known.difference(h.unreachable)
            &&& h.saved == (Databases {
                known: Some(known.difference(h.unreachable)),
                version: true,
            })
        }),
{
    run_holds(network, before, events);
    let (state, h) = run(network, before, events)->Some_0;
    assert(state.queue.take(state.at) == state.queue);
    assert forall|a: SocketAddr| h.unreachable.contains(a) implies base(h).contains(a) by {
        assert(state.queue.contains(a));
    }
    assert(h.active.to_set() =~= base(h).difference(h.unreachable));
}

/// Up to the commit, a startup leaves the databases as they were, so one that ends in
/// an error there has written nothing.
pub proof fn nothing_is_saved_before_the_commit(
    network: Network,
    before: Databases,
    events: Seq<StartupEvent>,
)
    requires
        run(network, before, events) is Some,
    ensures
        ({
            let (state, h) = run(network, before, events)->Some_0;
            state.stage != Stage::Listing && state.stage != Stage::Connecting && state.stage
                != Stage::Deleting && state.stage != Stage::Done ==> h.saved == before
        }),
{
    run_holds(network, before, events);
}

/// The seed nodes are written only by a node whose database is new.
pub proof fn an_existing_database_takes_no_seeds(
    network: Network,
    before: Databases,
    events: Seq<StartupEvent>,
)
    requires
        before.known is Some,
        run(network, before, events) is Some,
    ensures
        run(network, before, events)->Some_0.1.seeds.len() == 0,
    decreases events.len(),
{
    run_holds(network, before, events);
    if events.len() > 0 {
        an_existing_database_takes_no_seeds(network, before, events.drop_last());
        run_holds(network, before, events.drop_last());
    }
}

/// A startup ends in an error only where what it is told is one, and then with that very
/// error: a database that failed, seed nodes that were not found, or a connection that
/// failed for another reason than that the address can never be reached. Everything else
/// that answers the action at hand takes the startup on, also where there is nothing to do,
/// such as no seed node to write or no peer to connect to.
pub proof fn only_an_error_ends_a_startup(state: StartupState, event: StartupEvent)
    requires
        answers(state.stage, event),
    ensures
        after_event(state, event) is Err <==> {
            ||| event is Failed
            ||| event matches StartupEvent::Seeds(Err(_))
            ||| event matches StartupEvent::Connected(Err(error)) && !(error matches
                NetError::Connect(ConnectError::InvalidRemoteAddress(_)))
        },
        after_event(state, event) matches Err(error) ==> match event {
            StartupEvent::Failed(reason) => error == NetError::Db(reason),
            StartupEvent::Seeds(Err(reason)) => error == reason,
            StartupEvent::Connected(Err(reason)) => error == reason,
            _ => false,
        },
{
}

/// What can be told of an action is told of that action: whether the database of known peers
/// exists of opening it, the seed nodes of finding those of the network, and so on.
pub proof fn an_answer_fits_the_action(state: StartupState, event: StartupEvent)
    requires
        answers(state.stage, event),
    ensures
        match event {
            StartupEvent::Failed(_) => state.action() != StartupAction::Finish,
            StartupEvent::Opened(_) => state.action() == StartupAction::OpenKnownPeers,
            StartupEvent::Seeds(_) => state.action() == StartupAction::FindSeeds(state.network),
            StartupEvent::Version(_) => state.action() == StartupAction::ReadVersion,
            StartupEvent::Listed(_) => state.action() == StartupAction::ListKnownPeers,
            StartupEvent::Connected(_) => state.action() is ConnectPeer,
            StartupEvent::Done => {
                ||| state.action() == StartupAction::CreateKnownPeers
                ||| state.action() is PutKnownPeer
                ||| state.action() == StartupAction::PutVersion
                ||| state.action() == StartupAction::Commit
                ||| state.action() is DeleteKnownPeer
            },
        },
{
}

/// Every action but the last one can be answered without an error.
pub proof fn every_action_can_be_answered(state: StartupState)
    requires
        state.stage != Stage::Done,
    ensures
        match state.action() {
            StartupAction::OpenKnownPeers => answers(state.stage, StartupEvent::Opened(true))
                && answers(state.stage, StartupEvent::Opened(false)),
            StartupAction::FindSeeds(network) => network == state.network && forall|
                addrs: Vec<SocketAddr>,
            | #[trigger] answers(state.stage, StartupEvent::Seeds(Ok(addrs))),
            StartupAction::ReadVersion => answers(state.stage, StartupEvent::Version(true))
                && answers(state.stage, StartupEvent::Version(false)),
            StartupAction::ListKnownPeers => forall|addrs: Vec<SocketAddr>| #[trigger]
                answers(state.stage, StartupEvent::Listed(addrs)),
            StartupAction::ConnectPeer(_) => answers(state.stage, StartupEvent::Connected(Ok(()))),
            StartupAction::Finish => false,
            _ => answers(state.stage, StartupEvent::Done),
        },
{
}

/// What follows what: a new database is created, then gets the seed nodes one by one; then
/// the version is read, and written if there is none; then comes the commit; then the known
/// peers are connected to one by one, and one that can never be reached is deleted before
/// the next one has its turn. Then the startup is done.
pub proof fn what_follows_an_answer(state: StartupState, event: StartupEvent, next: StartupState)
    requires
        state.wf(),
        answers(state.stage, event),
        after_event(state, event) == Ok::<StartupState, NetError>(next),
    ensures
        next.wf(),
        next.network == state.network,
        match event {
            StartupEvent::Opened(true) => next.action() == StartupAction::ReadVersion,
            StartupEvent::Opened(false) => next.action() == StartupAction::CreateKnownPeers,
            StartupEvent::Seeds(Ok(addrs)) => next.action() == if addrs@.len() == 0 {
                StartupAction::ReadVersion
            } else {
                StartupAction::PutKnownPeer(addrs@[0])
            },
            StartupEvent::Version(true) => next.action() == StartupAction::Commit,
            StartupEvent::Version(false) => next.action() == StartupAction::PutVersion,
            StartupEvent::Listed(addrs) => next.action() == if addrs@.len() == 0 {
                StartupAction::Finish
            } else {
                StartupAction::ConnectPeer(addrs@[0])
            },
            StartupEvent::Connected(Err(_)) => state.action() matches StartupAction::ConnectPeer(
                addr,
            ) && next.action() == StartupAction::DeleteKnownPeer(addr) && next.queue == state.queue
                && next.at == state.at,
            _ => match state.action() {
                StartupAction::CreateKnownPeers => next.action() == StartupAction::FindSeeds(
                    state.network,
                ),
                StartupAction::PutKnownPeer(_) => next.queue == state.queue && next.action()
                    == if state.at + 1 < state.queue.len() {
                    StartupAction::PutKnownPeer(state.queue[state.at + 1])
                } else {
                    StartupAction::ReadVersion
                },
                StartupAction::PutVersion => next.action() == StartupAction::Commit,
                StartupAction::Commit => next.action() == StartupAction::ListKnownPeers,
                StartupAction::ConnectPeer(_) | StartupAction::DeleteKnownPeer(_) => next.queue
                    == state.queue && next.action() == if state.at + 1 < state.queue.len() {
                    StartupAction::ConnectPeer(state.queue[state.at + 1])
                } else {
                    StartupAction::Finish
                },
                _ => false,
            },
        },
{
}

/// How many answers it takes until the version is read.
pub open spec fn answers_before_version(h: History) -> int {
    match h.before.known {
        Some(_) => 1,
        None => 3int + h.seeds.len(),
    }
}

/// How many answers it takes until the known peers are listed, the list among them.
pub open spec fn answers_before_dialing(h: History) -> int {
    answers_before_version(h) + if h.before.version {
        3int
    } else {
        4int
    }
}

/// How many answers a startup had at each stage.
spec fn count_holds(state: StartupState, h: History, n: int) -> bool {
    let deleted = h.dialed.len() - h.active.len();
    match state.stage {
        Stage::Opening => n == 0,
        Stage::Creating => n == 1 && h.before.known is None,
        Stage::FindingSeeds => n == 2 && h.before.known is None,
        Stage::PuttingSeed => n == 3 + state.at && h.before.known is None,
        Stage::ReadingVersion => n == answers_before_version(h),
        Stage::PuttingVersion => n == answers_before_version(h) + 1 && !h.before.version,
        Stage::Committing => n == answers_before_dialing(h) - 2,
        Stage::Listing => n == answers_before_dialing(h) - 1,
        Stage::Connecting | Stage::Done => n == answers_before_dialing(h) + h.dialed.len()
            + deleted,
        Stage::Deleting => n == answers_before_dialing(h) + h.dialed.len() + deleted - 1,
    }
}

/// How many answers every startup had.
proof fn run_counts(network: Network, before: Databases, events: Seq<StartupEvent>)
    ensures
        run(network, before, events) matches Some((state, h)) ==> count_holds(
            state,
            h,
            events.len() as int,
        ),
    decreases events.len(),
{
    if events.len() > 0 {
        let less = events.drop_last();
        run_counts(network, before, less);
        run_holds(network, before, less);
        run_holds(network, before, events);
    }
}

/// A startup goes on as long as nothing fails, and it comes to an end: from any database, on
/// any network, it has started once it had one answer for each thing to do, which are as many
/// as there are seed nodes to write, peers to dial, and peers to delete, and a few more.
pub proof fn a_startup_that_nothing_fails_comes_to_an_end(
    network: Network,
    before: Databases,
    events: Seq<StartupEvent>,
    event: StartupEvent,
)
    requires
        run(network, before, events) is Some,
    ensures
        ({
            let (state, h) = run(network, before, events)->Some_0;
            let steps = answers_before_dialing(h) + 2 * h.dialed.len() - h.active.len();
            &&& state.wf()
            &&& state.stage == Stage::Done ==> events.len() == steps
            &&& state.stage != Stage::Done && events.len() >= answers_before_dialing(h)
                ==> h.dialed.len() <= state.queue.len() && h.active.len() < state.queue.len()
            &&& answers(state.stage, event) && truthful(state, h, event) && !(event is Failed)
                && !(event matches StartupEvent::Seeds(Err(_))) && !(event matches
                StartupEvent::Connected(Err(error)) && !(error matches NetError::Connect(
                ConnectError::InvalidRemoteAddress(_),
            ))) ==> run(network, before, events.push(event)) is Some
        }),
{
    run_holds(network, before, events);
    run_counts(network, before, events);
    let (state, h) = run(network, before, events)->Some_0;
    assert(events.push(event).drop_last() =~= events);
    if state.stage == Stage::Connecting || state.stage == Stage::Deleting {
        active_are_dialed(state, h);
    }
}

/// No more peers are active than were dealt with.
proof fn active_are_dialed(state: StartupState, h: History)
    requires
        active_holds(state, h),
        stage_holds(state, h),
        state.stage == Stage::Connecting || state.stage == Stage::Deleting,
    ensures
        h.active.len() <= state.at,
{
    let dealt = state.queue.take(state.at);
    h.active.unique_seq_to_set();
    dealt.unique_seq_to_set();
    assert(h.active.to_set().subset_of(dealt.to_set()));
    vstd::set_lib::lemma_len_subset(h.active.to_set(), dealt.to_set());
}

/// A startup begins by opening the database of known peers, under the names that the
/// databases have always had.
pub proof fn a_startup_begins_with_the_known_peers(network: Network)
    ensures
        initial(network).wf(),
        initial(network).network == network,
        initial(network).action() == StartupAction::OpenKnownPeers,
        KNOWN_PEERS_DB@ == "known_peers"@,
        VERSION_DB@ == "net_version"@,
{
}

} // verus!
