use net_core::NetError;
use net_core::PingAction;
use net_core::PingEvent;
use net_core::PingState;
use net_core::ProtocolAddress;
use net_core::ProtocolJobsManager;
use net_core::ProtocolKind;
use net_core::ProtocolPing;
use net_core::ProtocolSeed;
use net_core::ProtocolVersion;
use net_core::AddressAction;
use net_core::AddressEvent;
use net_core::SeedAction;
use net_core::SeedEvent;
use net_core::SeedState;
use net_core::Settings;
use net_core::VersionAction;
use net_core::VersionEvent;
use net_core::VersionState;

fn settings() -> Settings {
    Settings {
        connect_timeout_seconds: 10,
        ping_interval_seconds: 30,
        ping_timeout_seconds: 15,
        version_min: 3,
        version_max: 5,
        version: 4,
        max_frame_body: 1024,
        seed_addresses: vec![String::from("tcp://seed.example:9000")],
    }
}

#[test]
fn handshake_reaches_established() {
    let mut v = ProtocolVersion::new(&settings());
    assert_eq!(v.state, VersionState::AwaitingVersion);
    let (act, err) = v.step(VersionEvent::PeerVersion(4));
    assert_eq!(act, VersionAction::SendVerack);
    assert_eq!(err, None);
    let (act, err) = v.step(VersionEvent::PeerVerack);
    assert_eq!(act, VersionAction::Idle);
    assert_eq!(err, None);
    assert!(v.established());
}

#[test]
fn incompatible_version_fails_and_stops() {
    let mut v = ProtocolVersion::new(&settings());
    let (act, err) = v.step(VersionEvent::PeerVersion(9));
    assert_eq!(act, VersionAction::Stop);
    assert_eq!(err, Some(NetError::IncompatiblePeer));
    assert_eq!(v.state, VersionState::Failed);
    assert!(!v.established());
}

#[test]
fn disjoint_ranges_fail_on_both_sides() {
    // Peer a accepts 1..=2, peer b accepts 5..=7: each one rejects the
    // other's announced version and stops its channel.
    let mut a = ProtocolVersion::new(&Settings { version_min: 1, version_max: 2, version: 2, ..settings() });
    let mut b = ProtocolVersion::new(&Settings { version_min: 5, version_max: 7, version: 5, ..settings() });
    let (act_a, err_a) = a.step(VersionEvent::PeerVersion(5));
    let (act_b, err_b) = b.step(VersionEvent::PeerVersion(2));
    assert_eq!(act_a, VersionAction::Stop);
    assert_eq!(err_a, Some(NetError::IncompatiblePeer));
    assert_eq!(act_b, VersionAction::Stop);
    assert_eq!(err_b, Some(NetError::IncompatiblePeer));
    assert!(!a.established());
    assert!(!b.established());
}

#[test]
fn handshake_timeout_stops() {
    let mut v = ProtocolVersion::new(&settings());
    let (act, err) = v.step(VersionEvent::Timeout);
    assert_eq!(act, VersionAction::Stop);
    assert_eq!(err, Some(NetError::HandshakeTimeout));
}

#[test]
fn out_of_order_verack_is_violation() {
    let mut v = ProtocolVersion::new(&settings());
    let (act, err) = v.step(VersionEvent::PeerVerack);
    assert_eq!(act, VersionAction::Stop);
    assert_eq!(err, Some(NetError::ProtocolViolation));
}

#[test]
fn ping_pong_round() {
    let mut p = ProtocolPing::new(2);
    let (act, err) = p.step(PingEvent::IntervalTick(77));
    assert_eq!(act, PingAction::SendPing(77));
    assert_eq!(err, None);
    assert_eq!(p.state, PingState::AwaitingPong);
    let (act, err) = p.step(PingEvent::PeerPong(77));
    assert_eq!(act, PingAction::Idle);
    assert_eq!(err, None);
    assert_eq!(p.state, PingState::Idle);
    assert_eq!(p.missed, 0);
}

#[test]
fn wrong_nonce_pong_is_ignored() {
    let mut p = ProtocolPing::new(2);
    p.step(PingEvent::IntervalTick(77));
    let (act, err) = p.step(PingEvent::PeerPong(78));
    assert_eq!(act, PingAction::Idle);
    assert_eq!(err, None);
    assert_eq!(p.state, PingState::AwaitingPong);
}

#[test]
fn inbound_ping_echoed_at_once() {
    let mut p = ProtocolPing::new(2);
    let (act, err) = p.step(PingEvent::PeerPing(31));
    assert_eq!(act, PingAction::SendPong(31));
    assert_eq!(err, None);
    // Also while an outbound ping is in flight.
    p.step(PingEvent::IntervalTick(1));
    let (act, _) = p.step(PingEvent::PeerPing(32));
    assert_eq!(act, PingAction::SendPong(32));
}

#[test]
fn two_missed_pongs_kill_the_connection() {
    // Two consecutive silent waits, each bounded by the pong timeout, end
    // with the channel stopped and a ping timeout reported.
    let mut p = ProtocolPing::new(2);
    let (act, err) = p.step(PingEvent::IntervalTick(1));
    assert_eq!(act, PingAction::SendPing(1));
    assert_eq!(err, None);
    let (act, err) = p.step(PingEvent::PongTimeout);
    assert_eq!(act, PingAction::Idle);
    assert_eq!(err, None);
    let (act, err) = p.step(PingEvent::IntervalTick(2));
    assert_eq!(act, PingAction::SendPing(2));
    assert_eq!(err, None);
    let (act, err) = p.step(PingEvent::PongTimeout);
    assert_eq!(act, PingAction::Stop);
    assert_eq!(err, Some(NetError::PingTimeout));
    assert_eq!(p.state, PingState::Dead);
}

#[test]
fn pong_in_time_resets_the_miss_count() {
    let mut p = ProtocolPing::new(2);
    p.step(PingEvent::IntervalTick(1));
    p.step(PingEvent::PongTimeout);
    assert_eq!(p.missed, 1);
    p.step(PingEvent::IntervalTick(2));
    p.step(PingEvent::PeerPong(2));
    assert_eq!(p.missed, 0);
    assert_eq!(p.state, PingState::Idle);
}

#[test]
fn address_announce_sends_snapshot() {
    let mut a = ProtocolAddress::new();
    let snapshot = vec![String::from("tcp://1.2.3.4:1"), String::from("tcp://5.6.7.8:2")];
    match a.step(AddressEvent::AnnounceTick(snapshot.clone())) {
        AddressAction::SendAddrs(sent) => assert_eq!(sent, snapshot),
        _ => panic!("expected an announcement"),
    }
    assert_eq!(a.last_announced, snapshot);
}

#[test]
fn address_forwards_peer_announcement_unchanged() {
    let mut a = ProtocolAddress::new();
    let theirs = vec![String::from("tcp://9.9.9.9:9"), String::from("tls://8.8.8.8:8")];
    match a.step(AddressEvent::PeerAddrs(theirs.clone())) {
        AddressAction::ForwardToStore(fwd) => assert_eq!(fwd, theirs),
        _ => panic!("expected a forward"),
    }
    assert_eq!(a.last_announced, Vec::<String>::new());
}

#[test]
fn seed_forwards_exactly_n_then_stops() {
    let mut s = ProtocolSeed::new();
    assert_eq!(s.step(SeedEvent::Established), SeedAction::SendGetAddrs);
    let list = vec![
        String::from("tcp://a:1"),
        String::from("tcp://b:2"),
        String::from("tcp://c:3"),
    ];
    match s.step(SeedEvent::PeerAddrs(list.clone())) {
        SeedAction::ForwardAndStop(fwd) => {
            assert_eq!(fwd.len(), 3);
            assert_eq!(fwd, list);
        },
        _ => panic!("expected forward-and-stop"),
    }
    assert_eq!(s.state, SeedState::Done);
}

#[test]
fn seed_timeout_stops_without_forwarding() {
    let mut s = ProtocolSeed::new();
    s.step(SeedEvent::Established);
    assert_eq!(s.step(SeedEvent::Timeout), SeedAction::Stop);
    assert_eq!(s.state, SeedState::Done);
}

#[test]
fn manager_registers_starts_and_joins_all() {
    let mut m = ProtocolJobsManager::new(7);
    m.register(ProtocolKind::Version);
    m.register(ProtocolKind::Ping);
    m.register(ProtocolKind::Address);
    m.register(ProtocolKind::Seed);
    assert_eq!(m.tasks.len(), 4);
    assert!(m.tasks.iter().all(|t| !t.running));
    m.start();
    assert!(m.started);
    assert!(m.tasks.iter().all(|t| t.running));
    m.stop_and_join();
    assert!(m.tasks.iter().all(|t| !t.running));
    assert_eq!(m.tasks[0].kind, ProtocolKind::Version);
    assert_eq!(m.tasks[3].kind, ProtocolKind::Seed);
    // Joining again changes nothing.
    m.stop_and_join();
    assert!(m.tasks.iter().all(|t| !t.running));
}
