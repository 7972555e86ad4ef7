use futures::channel::mpsc::{unbounded, UnboundedReceiver};
use thunder_net::net::accept::{Incoming, REFUSAL_REASON};
use thunder_net::net::connect::SERVER_NAME;
use thunder_net::net::dial::DialRound;
use thunder_net::net::error::{
    AcceptConnection, AlreadyConnected, ConnectError, DbError, NetError,
};
use thunder_net::net::peer_message::{
    magic_bytes, PeerConnectionMessage, PeerRequest,
};
use thunder_net::net::peers::{Net, PeerConnectionHandle};
use thunder_net::net::redial::{Delay, Redial, RedialStep};
use thunder_net::net::seed::{
    forknet_seed_node_addrs, resolved_seed_addrs, seed_node_addrs, seed_node_name,
    signet_seed_node_addrs, SeedNodes, ALPHANET_SEED_NODE_ADDR,
};
use thunder_net::net::startup::{Startup, StartupAction, StartupEvent};
use thunder_net::net::tls::SkipServerVerification;
use thunder_net::types::{IpAddr, Network, PeerConnectionStatus, SocketAddr};

type Message = PeerConnectionMessage<String, u8>;
type Handle = PeerConnectionHandle<String, u8, PeerConnectionStatus>;
type TestNet = Net<String, u8, PeerConnectionStatus>;

const CONNECTED: PeerConnectionStatus = PeerConnectionStatus::Connected;
const CONNECTING: PeerConnectionStatus = PeerConnectionStatus::Connecting;

fn peer(last: u8) -> SocketAddr {
    SocketAddr::new(IpAddr::v4(127, 0, 0, last), 4098)
}

fn handle(status: PeerConnectionStatus) -> (Handle, UnboundedReceiver<Message>) {
    let (internal_message_tx, rx) = unbounded();
    (PeerConnectionHandle { internal_message_tx, task: status }, rx)
}

fn add(net: &mut TestNet, addr: SocketAddr, status: PeerConnectionStatus) -> UnboundedReceiver<Message> {
    let (handle, rx) = handle(status);
    assert!(net.add_active_peer(addr, handle).is_ok());
    rx
}

fn no_lookup(_host: &str, _port: u16) -> Result<Vec<SocketAddr>, String> {
    panic!("looked up a name")
}

fn db_error() -> DbError {
    DbError { message: "disk full".to_string() }
}

fn pushed(message: Message) -> Option<String> {
    match message {
        PeerConnectionMessage::Request(PeerRequest::PushTransaction(request)) => {
            Some(*request.transaction)
        }
        PeerConnectionMessage::Other(_) => None,
    }
}

#[test]
fn alphanet_seed_uses_sidechain_port() {
    assert_eq!(ALPHANET_SEED_NODE_ADDR, ("seed.alpha.ecash.eu.com", 4098));
}

#[test]
fn network_magic_keeps_distinct_values() {
    for (network, last_byte) in [
        (Network::Regtest, 0),
        (Network::Signet, 1),
        (Network::Forknet, 2),
        (Network::Alphanet, 3),
    ] {
        assert_eq!(magic_bytes(network), [0x8d, 0x19, 0x28, last_byte]);
    }
}

#[test]
fn existing_network_seeds_stay_the_same() {
    assert_eq!(
        seed_node_addrs(Network::Signet, no_lookup).unwrap(),
        signet_seed_node_addrs()
    );
    assert_eq!(
        seed_node_addrs(Network::Forknet, no_lookup).unwrap(),
        forknet_seed_node_addrs()
    );
    assert!(seed_node_addrs(Network::Regtest, no_lookup).unwrap().is_empty());
}

#[test]
fn seed_addresses_are_exact() {
    let at = |a, b, c, d| SocketAddr::new(IpAddr::v4(a, b, c, d), 4098);
    assert_eq!(
        signet_seed_node_addrs(),
        vec![at(172, 105, 148, 135), at(95, 217, 243, 12)]
    );
    assert_eq!(forknet_seed_node_addrs(), vec![at(157, 180, 8, 224)]);
    assert_eq!(at(172, 105, 148, 135), SocketAddr::V4 { ip: 2892600455, port: 4098 });
}

#[test]
fn only_the_alphanet_has_a_seed_name() {
    assert_eq!(
        seed_node_name(Network::Alphanet),
        Some(("seed.alpha.ecash.eu.com", 4098))
    );
    assert_eq!(seed_node_name(Network::Signet), None);
    assert_eq!(seed_node_name(Network::Forknet), None);
    assert_eq!(seed_node_name(Network::Regtest), None);
}

#[test]
fn the_alphanet_seed_is_looked_up() {
    let found = seed_node_addrs(Network::Alphanet, |host: &str, port: u16| {
        assert_eq!((host, port), ("seed.alpha.ecash.eu.com", 4098));
        Ok(vec![peer(7)])
    });
    assert_eq!(found.unwrap(), vec![peer(7)]);
}

#[test]
fn a_failed_seed_lookup_names_the_seed() {
    let failed = seed_node_addrs(Network::Alphanet, |_: &str, _: u16| Err("no such host".to_string()));
    match failed {
        Err(NetError::ResolveSeed { address, source }) => {
            assert_eq!(address, "seed.alpha.ecash.eu.com:4098");
            assert_eq!(source, "no such host");
        }
        other => panic!("unexpected {:?}", other),
    }
    match resolved_seed_addrs("localhost", 1, Err("refused".to_string())) {
        Err(NetError::ResolveSeed { address, .. }) => assert_eq!(address, "localhost:1"),
        other => panic!("unexpected {:?}", other),
    }
}

#[test]
fn a_net_has_the_magic_of_its_network_or_another() {
    let net = TestNet::new(None, Network::Signet);
    assert_eq!(net.magic_bytes(), [0x8d, 0x19, 0x28, 1]);
    let net = TestNet::new(Some([1, 2, 3, 4]), Network::Signet);
    assert_eq!(net.magic_bytes(), [1, 2, 3, 4]);
    assert!(net.has_no_active_peers());
    assert_eq!(TestNet::NUM_DBS, 2);
}

#[test]
fn only_a_named_seed_is_resolved() {
    match TestNet::new(None, Network::Alphanet).resolve_seed_node_addrs() {
        SeedNodes::Named { host, port } => {
            assert_eq!((host, port), ("seed.alpha.ecash.eu.com", 4098))
        }
        other => panic!("unexpected {:?}", other),
    }
    match TestNet::new(None, Network::Regtest).resolve_seed_node_addrs() {
        SeedNodes::Known(addrs) => assert!(addrs.is_empty()),
        other => panic!("unexpected {:?}", other),
    }
}

#[test]
fn a_second_connection_is_rejected() {
    let mut net = TestNet::new(None, Network::Regtest);
    let _rx = add(&mut net, peer(1), CONNECTED);
    let (duplicate, mut duplicate_rx) = handle(CONNECTING);
    let error = net.add_active_peer(peer(1), duplicate).err().unwrap();
    assert_eq!(error, AlreadyConnected(peer(1)));
    let peers = net.get_active_peers(|handle: &Handle| handle.task);
    assert_eq!(peers.len(), 1);
    assert_eq!(peers[0].address, peer(1));
    assert_eq!(peers[0].status, CONNECTED);
    // The handle of the duplicate is gone, so its queue is closed.
    assert!(duplicate_rx.try_recv().is_err());
}

#[test]
fn an_added_connection_forwards_its_end() {
    let mut net = TestNet::new(None, Network::Regtest);
    let (handle, _rx) = handle(CONNECTING);
    let forward = net.add_active_peer(peer(1), handle).ok().unwrap();
    assert_eq!(forward.event(Some(5)), (peer(1), Some(5)));
    assert_eq!(forward.event(None::<u8>), (peer(1), None));
}

#[test]
fn removing_a_peer_leaves_the_others() {
    let mut net = TestNet::new(None, Network::Regtest);
    let _one = add(&mut net, peer(1), CONNECTED);
    let _two = add(&mut net, peer(2), CONNECTING);
    let _three = add(&mut net, peer(3), CONNECTED);
    net.remove_active_peer(peer(2));
    net.remove_active_peer(peer(9));
    assert!(net.is_active_peer(&peer(1)));
    assert!(!net.is_active_peer(&peer(2)));
    assert!(net.is_active_peer(&peer(3)));
    let _again = add(&mut net, peer(2), CONNECTING);
    assert!(net.is_active_peer(&peer(2)));
}

#[test]
fn a_function_is_applied_to_an_active_peer_only() {
    let mut net = TestNet::new(None, Network::Regtest);
    let _rx = add(&mut net, peer(1), CONNECTED);
    let status = |handle: &Handle| handle.task;
    assert_eq!(net.try_with_active_peer_connection(peer(1), status), Some(CONNECTED));
    assert_eq!(net.try_with_active_peer_connection(peer(2), status), None);
}

#[test]
fn a_peer_is_forgotten_but_stays_connected() {
    let mut net = TestNet::new(None, Network::Regtest);
    let _rx = add(&mut net, peer(1), CONNECTED);
    assert!(net.forget_peer(&peer(1), |addr: &SocketAddr| Ok(*addr == peer(1))).unwrap());
    assert!(!net.forget_peer(&peer(2), |addr: &SocketAddr| Ok(*addr == peer(1))).unwrap());
    assert!(net.is_active_peer(&peer(1)));
    match net.forget_peer(&peer(1), |_: &SocketAddr| Err(db_error())) {
        Err(NetError::Db(error)) => assert_eq!(error.message, "disk full"),
        other => panic!("unexpected {:?}", other),
    }
}

#[test]
fn a_message_reaches_an_active_peer_only() {
    let mut net = TestNet::new(None, Network::Regtest);
    let mut rx = add(&mut net, peer(1), CONNECTED);
    assert!(net.push_internal_message(PeerConnectionMessage::Other(9), peer(1)));
    match rx.try_recv() {
        Ok(PeerConnectionMessage::Other(byte)) => assert_eq!(byte, 9),
        _ => panic!("nothing was queued"),
    }
    assert!(!net.push_internal_message(PeerConnectionMessage::Other(9), peer(2)));
    drop(rx);
    assert!(!net.push_internal_message(PeerConnectionMessage::Other(9), peer(1)));
}

#[test]
fn a_transaction_goes_to_established_peers_that_are_not_excluded() {
    let mut net = TestNet::new(None, Network::Regtest);
    let mut one = add(&mut net, peer(1), CONNECTED);
    let mut two = add(&mut net, peer(2), CONNECTING);
    let mut three = add(&mut net, peer(3), CONNECTED);
    let four = add(&mut net, peer(4), CONNECTED);
    drop(four);
    let status = |handle: &Handle| handle.task;
    let exclude = vec![peer(3), peer(8)];
    assert_eq!(net.push_tx_targets(&exclude, status), vec![peer(1), peer(4)]);
    assert_eq!(
        net.push_tx(&exclude, &"tx".to_string(), status),
        vec![(peer(1), true), (peer(4), false)]
    );
    assert_eq!(pushed(one.try_recv().unwrap()), Some("tx".to_string()));
    assert!(one.try_recv().is_err());
    assert!(two.try_recv().is_err());
    assert!(three.try_recv().is_err());
}

#[test]
fn a_dial_goes_through_every_step() {
    let mut net = TestNet::new(None, Network::Forknet);
    let dial = net.connect_peer(peer(1)).ok().unwrap();
    assert_eq!(dial.target(), (peer(1), "localhost"));
    assert_eq!(SERVER_NAME, "localhost");
    let record = dial.dialed(Ok(())).ok().unwrap();
    assert_eq!(record.target(), peer(1));
    let start = record.recorded(Ok(())).ok().unwrap();
    assert_eq!(start.target(), peer(1));
    assert_eq!(start.magic_bytes(), [0x8d, 0x19, 0x28, 2]);
    let (handle, _rx) = handle(CONNECTING);
    assert!(net.add_dialed_peer(start, handle).is_ok());
    assert!(net.is_active_peer(&peer(1)));
}

#[test]
fn a_connected_peer_is_not_dialed() {
    let mut net = TestNet::new(None, Network::Regtest);
    let _rx = add(&mut net, peer(1), CONNECTED);
    match net.connect_peer(peer(1)) {
        Err(NetError::AlreadyConnected(AlreadyConnected(addr))) => assert_eq!(addr, peer(1)),
        _ => panic!("dialed"),
    }
    assert!(net.dial_known_peer(peer(1)).unwrap().is_none());
    assert!(net.dial_known_peer(peer(2)).unwrap().is_some());
}

#[test]
fn an_unspecified_address_is_not_dialed() {
    let net = TestNet::new(None, Network::Regtest);
    for ip in [IpAddr::V4(0), IpAddr::V6(0)] {
        match net.connect_peer(SocketAddr::new(ip, 4098)) {
            Err(NetError::UnspecfiedPeerIP(found)) => assert_eq!(found, ip),
            _ => panic!("dialed"),
        }
        assert!(net.dial_known_peer(SocketAddr::new(ip, 4098)).is_err());
    }
    assert!(net.connect_peer(SocketAddr::new(IpAddr::V6(1), 4098)).is_ok());
}

#[test]
fn a_dial_stops_at_its_first_error() {
    let mut net = TestNet::new(None, Network::Regtest);
    let dial = net.connect_peer(peer(1)).ok().unwrap();
    match dial.dialed(Err(ConnectError::Other("too many".to_string()))) {
        Err(NetError::Connect(ConnectError::Other(reason))) => assert_eq!(reason, "too many"),
        _ => panic!("recorded"),
    }
    let record = net.connect_peer(peer(1)).ok().unwrap().dialed(Ok(())).ok().unwrap();
    assert!(matches!(record.recorded(Err(db_error())), Err(NetError::Db(_))));
    // Whoever was added in between keeps the place.
    let record = net.connect_peer(peer(1)).ok().unwrap().dialed(Ok(())).ok().unwrap();
    let start = record.recorded(Ok(())).ok().unwrap();
    let _rx = add(&mut net, peer(1), CONNECTED);
    let (late, _late_rx) = handle(CONNECTING);
    match net.add_dialed_peer(start, late) {
        Err(NetError::AlreadyConnected(AlreadyConnected(addr))) => assert_eq!(addr, peer(1)),
        _ => panic!("added"),
    }
    assert_eq!(net.get_active_peers(|handle: &Handle| handle.task)[0].status, CONNECTED);
}

#[test]
fn a_peer_is_forgotten_only_once() {
    let mut net = TestNet::new(None, Network::Regtest);
    let _rx = add(&mut net, peer(1), CONNECTED);
    let mut known = vec![peer(1), peer(2)];
    let mut forget = |addr: SocketAddr| {
        net.forget_peer(&addr, |addr: &SocketAddr| {
            let before = known.len();
            known.retain(|other| other != addr);
            Ok(known.len() < before)
        })
        .unwrap()
    };
    assert!(forget(peer(1)));
    assert!(!forget(peer(1)));
    assert!(!forget(peer(3)));
    assert_eq!(known, vec![peer(2)]);
    assert!(net.is_active_peer(&peer(1)));
}

#[test]
fn a_round_over_a_node_counts_what_it_adds() {
    let mut net = TestNet::new(None, Network::Regtest);
    let _rx = add(&mut net, peer(1), CONNECTED);
    let unspecified = SocketAddr::new(IpAddr::V4(0), 4098);
    let known = vec![peer(1), unspecified, peer(2), peer(3), peer(4)];
    let mut round = DialRound::begin(Ok(known)).unwrap_or_else(|_| panic!());
    let mut recorded = vec![peer(1)];
    let mut queues = Vec::new();
    while let Some(addr) = round.current() {
        let outcome = match net.dial_known_peer(addr) {
            Ok(None) => Ok(false),
            Err(error) => Err(error),
            Ok(Some(dial)) if addr == peer(3) => {
                dial.dialed(Err(ConnectError::Other("no".to_string()))).map(|_| true)
            }
            Ok(Some(dial)) => {
                let record = dial.dialed(Ok(())).ok().unwrap();
                recorded.push(record.target());
                let start = record.recorded(Ok(())).ok().unwrap();
                let (handle, rx) = handle(CONNECTING);
                queues.push(rx);
                net.add_dialed_peer(start, handle).map(|_| true)
            }
        };
        round.report(outcome);
    }
    assert_eq!(round.dialed(), 2);
    let active: Vec<SocketAddr> =
        net.get_active_peers(|handle: &Handle| handle.task).iter().map(|peer| peer.address).collect();
    assert_eq!(active, vec![peer(1), peer(2), peer(4)]);
    assert_eq!(active, recorded);
}

#[test]
fn a_new_peer_is_accepted() {
    let mut net = TestNet::new(None, Network::Signet);
    let admission = net.accept_incoming(Incoming::Established { addr: peer(1) }).ok().unwrap();
    assert_eq!(admission.refusal(), None);
    let record = admission.proceed(false).unwrap();
    assert_eq!(record.target(), peer(1));
    let start = record.recorded_accepted(Ok(())).ok().unwrap();
    assert_eq!(start.magic_bytes(), [0x8d, 0x19, 0x28, 1]);
    let (handle, _rx) = handle(CONNECTED);
    let (addr, forward) = net.add_accepted_peer(start, handle).ok().unwrap();
    assert_eq!(addr, peer(1));
    assert_eq!(forward.event(None::<u8>), (peer(1), None));
}

#[test]
fn a_duplicate_incoming_connection_is_refused() {
    let mut net = TestNet::new(None, Network::Signet);
    let _rx = add(&mut net, peer(1), CONNECTED);
    let admission = net.accept_incoming(Incoming::Established { addr: peer(1) }).ok().unwrap();
    assert_eq!(admission.refusal(), Some((1, "already connected")));
    assert_eq!(REFUSAL_REASON, "already connected");
    assert!(admission.proceed(true).is_none());
    let admission = net.accept_incoming(Incoming::Established { addr: peer(1) }).ok().unwrap();
    assert!(admission.proceed(false).is_none());
}

#[test]
fn an_incoming_connection_can_fail() {
    let mut net = TestNet::new(None, Network::Signet);
    assert!(matches!(
        net.accept_incoming(Incoming::EndpointClosed),
        Err(AcceptConnection::ServerEndpointClosed)
    ));
    let failed = Incoming::HandshakeFailed {
        error: "timed out".to_string(),
        remote_address: peer(3),
    };
    match net.accept_incoming(failed) {
        Err(AcceptConnection::Connection { error, remote_address }) => {
            assert_eq!(error, "timed out");
            assert_eq!(remote_address, peer(3));
        }
        _ => panic!("accepted"),
    }
    let accept = |net: &TestNet| {
        net.accept_incoming(Incoming::Established { addr: peer(1) }).ok().unwrap()
    };
    // The peer went away by itself.
    assert!(accept(&net).proceed(true).is_none());
    let record = accept(&net).proceed(false).unwrap();
    assert!(matches!(record.recorded_accepted(Err(db_error())), Err(AcceptConnection::Db(_))));
    let start = accept(&net).proceed(false).unwrap().recorded_accepted(Ok(())).ok().unwrap();
    let _rx = add(&mut net, peer(1), CONNECTED);
    let (late, _late_rx) = handle(CONNECTING);
    assert!(matches!(
        net.add_accepted_peer(start, late),
        Err(AcceptConnection::AlreadyConnected(AlreadyConnected(_)))
    ));
}

fn millis(n: u32) -> Delay {
    Delay { secs: 0, nanos: n * 1_000_000 }
}

#[test]
fn a_lost_peer_is_dialed_after_a_full_delay() {
    let mut redial = Redial::new(millis(50), millis(200));
    assert_eq!(redial.delay(), millis(50));
    assert_eq!(redial.checked(true), RedialStep::Wait);
    assert_eq!(redial.checked(false), RedialStep::Wait);
    assert_eq!(redial.checked(false), RedialStep::Dial);
}

#[test]
fn the_delay_doubles_up_to_its_limit() {
    let mut redial = Redial::new(millis(50), millis(180));
    assert_eq!(redial.checked(false), RedialStep::Wait);
    for expected in [100, 180, 180] {
        assert_eq!(redial.checked(false), RedialStep::Dial);
        assert!(redial.can_double());
        redial.dialed();
        assert_eq!(redial.delay(), millis(expected));
    }
    assert_eq!(redial.checked(true), RedialStep::Wait);
    assert_eq!(redial.delay(), millis(50));
    assert_eq!(redial.checked(false), RedialStep::Wait);
}

#[test]
fn a_failed_round_ends_the_redialing() {
    let mut redial = Redial::new(millis(50), millis(180));
    assert!(matches!(redial.dialed_round(Ok(3)), Ok(3)));
    assert_eq!(redial.delay(), millis(100));
    let failed = match DialRound::begin(Err(db_error())) {
        Ok(round) => Ok(round.dialed()),
        Err(error) => Err(error),
    };
    match redial.dialed_round(failed) {
        Err(NetError::Db(error)) => assert_eq!(error.message, "disk full"),
        other => panic!("unexpected {:?}", other),
    }
    assert_eq!(redial.delay(), millis(100));
}

#[test]
fn delays_carry_into_seconds() {
    let long = Delay { secs: 3, nanos: 600_000_000 };
    assert_eq!(long.doubled(), Delay { secs: 7, nanos: 200_000_000 });
    assert_eq!(long.min(&Delay { secs: 3, nanos: 5 }), Delay { secs: 3, nanos: 5 });
    assert_eq!(long.min(&Delay { secs: 4, nanos: 0 }), long);
    let half = Delay { secs: 0x8000_0000_0000_0000, nanos: 0 };
    assert!(!Redial::new(half, half).can_double());
    let less = Delay { secs: 0x7fff_ffff_ffff_ffff, nanos: 999_999_999 };
    assert!(Redial::new(less, less).can_double());
}

fn addresses(round: &mut DialRound, outcome: fn(SocketAddr) -> Result<bool, NetError>) -> Vec<SocketAddr> {
    let mut seen = Vec::new();
    while let Some(addr) = round.current() {
        seen.push(addr);
        let failed = outcome(addr);
        let is_err = failed.is_err();
        assert_eq!(round.report(failed).is_some(), is_err);
    }
    seen
}

#[test]
fn a_round_dials_known_peers_and_seeds_once() {
    let mut round = DialRound::begin(Ok(vec![peer(1), peer(2)])).unwrap_or_else(|_| panic!());
    assert!(round.add_seeds(Ok(vec![peer(2), peer(3), peer(3)])).is_none());
    let seen = addresses(&mut round, |addr| {
        if addr == peer(2) {
            Ok(false)
        } else if addr == peer(1) {
            Err(NetError::Connect(ConnectError::Other("no".to_string())))
        } else {
            Ok(true)
        }
    });
    assert_eq!(seen, vec![peer(1), peer(2), peer(3)]);
    assert_eq!(round.dialed(), 1);
}

#[test]
fn a_moved_seed_is_dialed_though_the_old_address_is_known() {
    let stale = SocketAddr::new(IpAddr::v4(127, 0, 0, 1), 1);
    let mut round = DialRound::begin(Ok(vec![stale])).unwrap_or_else(|_| panic!());
    assert!(round.add_seeds(Ok(vec![peer(5)])).is_none());
    assert_eq!(addresses(&mut round, |_| Ok(true)), vec![stale, peer(5)]);
    assert_eq!(round.dialed(), 2);
}

#[test]
fn a_round_goes_on_without_seeds_but_not_without_a_database() {
    let mut round = DialRound::begin(Ok(vec![peer(1)])).unwrap_or_else(|_| panic!());
    let lookup = resolved_seed_addrs("localhost", 4098, Err("no such host".to_string()));
    assert!(matches!(round.add_seeds(lookup), Some(NetError::ResolveSeed { .. })));
    assert_eq!(addresses(&mut round, |_| Ok(false)), vec![peer(1)]);
    assert_eq!(round.dialed(), 0);
    assert!(matches!(DialRound::begin(Err(db_error())), Err(NetError::Db(_))));
}

fn step(startup: &mut Startup, action: StartupAction, event: StartupEvent) {
    assert_eq!(startup.action(), action);
    assert!(startup.report(event).is_ok());
}

#[test]
fn a_new_database_takes_the_seeds() {
    let seeds = seed_node_addrs(Network::Signet, no_lookup).unwrap();
    let mut startup = Startup::new(Network::Signet);
    step(&mut startup, StartupAction::OpenKnownPeers, StartupEvent::Opened(false));
    step(&mut startup, StartupAction::CreateKnownPeers, StartupEvent::Done);
    step(
        &mut startup,
        StartupAction::FindSeeds(Network::Signet),
        StartupEvent::Seeds(Ok(seeds.clone())),
    );
    step(&mut startup, StartupAction::PutKnownPeer(seeds[0]), StartupEvent::Done);
    step(&mut startup, StartupAction::PutKnownPeer(seeds[1]), StartupEvent::Done);
    step(&mut startup, StartupAction::ReadVersion, StartupEvent::Version(false));
    step(&mut startup, StartupAction::PutVersion, StartupEvent::Done);
    step(&mut startup, StartupAction::Commit, StartupEvent::Done);
    step(&mut startup, StartupAction::ListKnownPeers, StartupEvent::Listed(seeds.clone()));
    step(&mut startup, StartupAction::ConnectPeer(seeds[0]), StartupEvent::Connected(Ok(())));
    step(&mut startup, StartupAction::ConnectPeer(seeds[1]), StartupEvent::Connected(Ok(())));
    assert_eq!(startup.action(), StartupAction::Finish);
}

#[test]
fn an_unreachable_known_peer_is_deleted() {
    let ipv4 = peer(1);
    let ipv6 = SocketAddr::new(IpAddr::V6(1), 4098);
    let mut startup = Startup::new(Network::Regtest);
    step(&mut startup, StartupAction::OpenKnownPeers, StartupEvent::Opened(true));
    step(&mut startup, StartupAction::ReadVersion, StartupEvent::Version(true));
    step(&mut startup, StartupAction::Commit, StartupEvent::Done);
    step(&mut startup, StartupAction::ListKnownPeers, StartupEvent::Listed(vec![ipv6, ipv4]));
    let refused = NetError::Connect(ConnectError::InvalidRemoteAddress(ipv6));
    step(
        &mut startup,
        StartupAction::ConnectPeer(ipv6),
        StartupEvent::Connected(Err(refused)),
    );
    step(&mut startup, StartupAction::DeleteKnownPeer(ipv6), StartupEvent::Done);
    step(&mut startup, StartupAction::ConnectPeer(ipv4), StartupEvent::Connected(Ok(())));
    assert_eq!(startup.action(), StartupAction::Finish);
}

#[test]
fn a_startup_ends_with_its_first_error() {
    let mut startup = Startup::new(Network::Regtest);
    assert!(matches!(
        startup.report(StartupEvent::Failed(db_error())),
        Err(NetError::Db(_))
    ));
    let mut startup = Startup::new(Network::Alphanet);
    step(&mut startup, StartupAction::OpenKnownPeers, StartupEvent::Opened(false));
    step(&mut startup, StartupAction::CreateKnownPeers, StartupEvent::Done);
    let lookup = resolved_seed_addrs("seed", 1, Err("no".to_string()));
    assert!(matches!(
        startup.report(StartupEvent::Seeds(lookup)),
        Err(NetError::ResolveSeed { .. })
    ));
    let mut startup = Startup::new(Network::Regtest);
    step(&mut startup, StartupAction::OpenKnownPeers, StartupEvent::Opened(true));
    step(&mut startup, StartupAction::ReadVersion, StartupEvent::Version(true));
    step(&mut startup, StartupAction::Commit, StartupEvent::Done);
    step(&mut startup, StartupAction::ListKnownPeers, StartupEvent::Listed(vec![peer(1)]));
    let unspecified = NetError::UnspecfiedPeerIP(IpAddr::V4(0));
    assert!(matches!(
        startup.report(StartupEvent::Connected(Err(unspecified))),
        Err(NetError::UnspecfiedPeerIP(_))
    ));
}

#[test]
fn any_certificate_is_valid() {
    let verifier = SkipServerVerification::new();
    assert!(verifier.verify_server_cert(&[], &Vec::new(), "localhost"));
    assert!(verifier.verify_server_cert(&[1, 2], &vec![vec![3]], "elsewhere"));
}

#[test]
fn signatures_are_checked_in_nine_schemes() {
    assert_eq!(
        SkipServerVerification::new().supported_verify_schemes(),
        vec![0x0503, 0x0403, 0x0807, 0x0806, 0x0805, 0x0804, 0x0601, 0x0501, 0x0401]
    );
}

#[test]
fn addresses_differ_in_any_field() {
    let plain = SocketAddr::new(IpAddr::V6(1), 80);
    let scoped = SocketAddr::V6 { ip: 1, port: 80, flowinfo: 0, scope_id: 2 };
    assert_ne!(plain, scoped);
    assert_eq!(scoped.ip(), IpAddr::V6(1));
    assert_eq!(scoped.port(), 80);
    assert!(!scoped.ip().is_unspecified());
}
