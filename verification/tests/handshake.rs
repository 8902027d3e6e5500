use net_core::Channel;
use net_core::NetError;
use net_core::ProtocolVersion;
use net_core::Settings;
use net_core::VersionAction;
use net_core::VersionEvent;

fn settings(version_min: u32, version_max: u32, version: u32) -> Settings {
    Settings {
        connect_timeout_seconds: 10,
        ping_interval_seconds: 30,
        ping_timeout_seconds: 15,
        version_min,
        version_max,
        version,
        max_frame_body: 1024,
        seed_addresses: Vec::new(),
    }
}

/// Carries every frame pending in `from`'s outbox over to `to`, one whole
/// frame at a time, as the wire would.
fn pump(from: &mut Channel, to: &mut Channel) -> Result<(), NetError> {
    let bytes = from.drain_outbox();
    let mut off = 0usize;
    while off < bytes.len() {
        assert!(bytes.len() - off >= 4, "partial frame on the wire");
        let body = net_core::frame_body_len(&bytes[off..off + 4], to.max_frame_body)? as usize;
        let end = off + 4 + body;
        assert!(end <= bytes.len(), "partial frame on the wire");
        to.handle_frame(&bytes[off..end])?;
        off = end;
    }
    Ok(())
}

struct Peer {
    channel: Channel,
    version: ProtocolVersion,
    version_sub: usize,
    verack_sub: usize,
}

fn peer(id: u64, cfg: &Settings) -> Peer {
    let mut channel = Channel::new(id, format!("tcp://peer{}:9000", id), cfg.max_frame_body);
    let version_sub = channel.subscribe(b"version".to_vec()).unwrap();
    let verack_sub = channel.subscribe(b"verack".to_vec()).unwrap();
    // The handshake opens with the local announcement.
    channel.send(&net_core::wire::version_message(cfg.version)).unwrap();
    Peer { channel, version: ProtocolVersion::new(cfg), version_sub, verack_sub }
}

/// Feeds every decoded handshake message to the peer's version machine and
/// performs the actions it owes. Returns the first failure reported.
fn drive(p: &mut Peer) -> Option<NetError> {
    let mut failure = None;
    while let Ok(Some(m)) = p.channel.read(p.version_sub) {
        if let Some(v) = net_core::wire::parse_version(&m) {
            let (act, err) = p.version.step(VersionEvent::PeerVersion(v));
            if act == VersionAction::SendVerack {
                p.channel.send(&net_core::wire::verack_message()).unwrap();
            }
            if act == VersionAction::Stop {
                p.channel.stop();
            }
            if failure.is_none() {
                failure = err;
            }
        }
    }
    while let Ok(Some(m)) = p.channel.read(p.verack_sub) {
        if net_core::wire::is_verack(&m) {
            let (act, err) = p.version.step(VersionEvent::PeerVerack);
            if act == VersionAction::Stop {
                p.channel.stop();
            }
            if failure.is_none() {
                failure = err;
            }
        }
    }
    failure
}

#[test]
fn compatible_peers_reach_established_on_both_sides() {
    let cfg_a = settings(3, 5, 4);
    let cfg_b = settings(4, 6, 5);
    let mut a = peer(1, &cfg_a);
    let mut b = peer(2, &cfg_b);

    pump(&mut a.channel, &mut b.channel).unwrap();
    pump(&mut b.channel, &mut a.channel).unwrap();
    assert_eq!(drive(&mut a), None);
    assert_eq!(drive(&mut b), None);

    // The acknowledgements cross back.
    pump(&mut a.channel, &mut b.channel).unwrap();
    pump(&mut b.channel, &mut a.channel).unwrap();
    assert_eq!(drive(&mut a), None);
    assert_eq!(drive(&mut b), None);

    assert!(a.version.established());
    assert!(b.version.established());
    assert!(!a.channel.stopped);
    assert!(!b.channel.stopped);
}

#[test]
fn incompatible_peers_both_fail_and_stop() {
    // Disjoint accepted ranges: each side rejects the other's announcement.
    let cfg_a = settings(1, 2, 2);
    let cfg_b = settings(5, 7, 5);
    let mut a = peer(1, &cfg_a);
    let mut b = peer(2, &cfg_b);

    pump(&mut a.channel, &mut b.channel).unwrap();
    pump(&mut b.channel, &mut a.channel).unwrap();
    assert_eq!(drive(&mut a), Some(NetError::IncompatiblePeer));
    assert_eq!(drive(&mut b), Some(NetError::IncompatiblePeer));

    assert!(!a.version.established());
    assert!(!b.version.established());
    assert!(a.channel.stopped);
    assert!(b.channel.stopped);
}
