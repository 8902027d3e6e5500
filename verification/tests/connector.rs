use std::sync::Arc;

use net_core::Channel;
use net_core::Connector;
use net_core::DialPlan;
use net_core::Message;
use net_core::NetError;
use net_core::PingAction;
use net_core::PingEvent;
use net_core::ProtocolPing;
use net_core::ProtocolVersion;
use net_core::Settings;
use net_core::TransportKind;
use net_core::VersionAction;
use net_core::VersionEvent;

fn settings() -> Settings {
    Settings {
        connect_timeout_seconds: 10,
        ping_interval_seconds: 30,
        ping_timeout_seconds: 15,
        version_min: 3,
        version_max: 5,
        version: 4,
        max_frame_body: 1024,
        seed_addresses: vec![String::from("tcp://seed.example:9000")],
    }
}

#[test]
fn plan_for_plain_scheme() {
    let c = Connector::new(Arc::new(settings()));
    let plan = c.connect_plan("tcp://127.0.0.1:8080").unwrap();
    assert_eq!(plan, DialPlan { transport: TransportKind::Tcp, timeout_seconds: 10 });
}

#[test]
fn plan_for_encrypted_scheme() {
    let c = Connector::new(Arc::new(settings()));
    let plan = c.connect_plan("tls://peer.example:443").unwrap();
    assert_eq!(plan, DialPlan { transport: TransportKind::Tls, timeout_seconds: 10 });
}

#[test]
fn unknown_scheme_fails_fast() {
    let c = Connector::new(Arc::new(settings()));
    assert_eq!(c.connect_plan("quic://127.0.0.1:1"), Err(NetError::UnsupportedTransport));
}

#[test]
fn unparsable_address_is_a_failed_connection() {
    let c = Connector::new(Arc::new(settings()));
    assert_eq!(c.connect_plan("not an address"), Err(NetError::ConnectionFailed));
}

#[test]
fn unreachable_dial_returns_connection_failed() {
    // The dial raced its timeout and lost: the outcome is the typed failure.
    let c = Connector::new(Arc::new(settings()));
    let plan = c.connect_plan("tcp://10.255.255.1:4444").unwrap();
    assert_eq!(plan.timeout_seconds, 10);
    let r = c.finish_connect(false, 3, String::from("tcp://10.255.255.1:4444"));
    assert!(matches!(r, Err(NetError::ConnectionFailed)));
}

#[test]
fn reachable_dial_establishes_and_exchanges_a_ping() {
    // A dial within the timeout yields a running channel; the handshake
    // reaches Established; one ping/pong pair is exchanged; then the test
    // ends the connection.
    let cfg = settings();
    let c = Connector::new(Arc::new(cfg.clone()));
    let plan = c.connect_plan("tcp://127.0.0.1:8080").unwrap();
    assert_eq!(plan.transport, TransportKind::Tcp);
    let mut chan: Channel = c.finish_connect(true, 1, String::from("tcp://127.0.0.1:8080")).unwrap();
    assert!(!chan.stopped);

    let mut v = ProtocolVersion::new(&cfg);
    let (act, err) = v.step(VersionEvent::PeerVersion(4));
    assert_eq!(act, VersionAction::SendVerack);
    assert_eq!(err, None);
    let (_, err) = v.step(VersionEvent::PeerVerack);
    assert_eq!(err, None);
    assert!(v.established());

    let mut p = ProtocolPing::new(2);
    let (act, _) = p.step(PingEvent::IntervalTick(42));
    match act {
        PingAction::SendPing(n) => {
            let ping = Message { command: b"ping".to_vec(), payload: n.to_le_bytes().to_vec() };
            chan.send(&ping).unwrap();
        },
        _ => panic!("expected a ping to go out"),
    }
    let (act, err) = p.step(PingEvent::PeerPong(42));
    assert_eq!(act, PingAction::Idle);
    assert_eq!(err, None);

    assert!(chan.stop());
    assert!(chan.stopped);
}
