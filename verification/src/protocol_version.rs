//! Version handshake: the first protocol on every channel. It announces the
//! local protocol version, checks the peer's announcement against the locally
//! accepted range, and only an `Established` outcome lets the remaining
//! protocols start. It is privileged to tear the connection down on
//! incompatibility or on its bounded wait expiring.

use vstd::prelude::*;

use crate::error::NetError;
use crate::settings::Settings;

verus! {

/// Where the handshake stands.
#[derive(Clone, Copy, Debug, PartialEq, Eq, Structural)]
pub enum VersionState {
    /// Our version message is out; the peer's has not arrived yet.
    AwaitingVersion,
    /// The peer's version was acceptable; waiting for its acknowledgement.
    AwaitingVerack,
    /// The handshake completed; ordinary protocols may start.
    Established,
    /// The handshake failed; the channel is being stopped.
    Failed,
}

/// What the handshake observes.
#[derive(Clone, Copy, Debug, PartialEq, Eq, Structural)]
pub enum VersionEvent {
    /// The peer announced this protocol version.
    PeerVersion(u32),
    /// The peer acknowledged our version.
    PeerVerack,
    /// The bounded wait for the peer's next handshake message expired.
    Timeout,
}

/// What the runtime must do after a step.
#[derive(Clone, Copy, Debug, PartialEq, Eq, Structural)]
pub enum VersionAction {
    /// Send our acknowledgement of the peer's version.
    SendVerack,
    /// Stop the channel: this protocol is privileged to tear it down.
    Stop,
    /// Nothing to do.
    Idle,
}

/// The handshake state machine of one channel, initiator side; the responder
/// runs the same machine, with its version message sent on start as well.
pub struct ProtocolVersion {
    /// Lowest peer version accepted.
    pub version_min: u32,
    /// Highest peer version accepted.
    pub version_max: u32,
    /// The version this node announces.
    pub version: u32,
    /// Where the handshake stands.
    pub state: VersionState,
}

impl ProtocolVersion {
    /// The announced version lies in the accepted range.
    pub open spec fn wf(self) -> bool {
        self.version_min <= self.version <= self.version_max
    }

    /// Whether a peer announcing `v` is acceptable.
    pub open spec fn compatible(self, v: u32) -> bool {
        self.version_min <= v <= self.version_max
    }

    /// The whole transition relation. One step consumes one event and yields
    /// the next state, the action owed to the runtime, and the failure to
    /// report, if any:
    /// - an acceptable peer version is acknowledged and awaited back;
    /// - an unacceptable one fails with `IncompatiblePeer` and stops the
    ///   channel;
    /// - the peer's acknowledgement establishes the channel;
    /// - an expired wait fails with `HandshakeTimeout` and stops the channel;
    /// - a handshake message out of order is a `ProtocolViolation` and stops
    ///   the channel;
    /// - once `Established` or `Failed`, the machine ignores everything.
    pub open spec fn spec_step(self, ev: VersionEvent) -> (ProtocolVersion, VersionAction, Option<
        NetError,
    >) {
        match (self.state, ev) {
            (VersionState::AwaitingVersion, VersionEvent::PeerVersion(v)) => {
                if self.compatible(v) {
                    (
                        ProtocolVersion { state: VersionState::AwaitingVerack, ..self },
                        VersionAction::SendVerack,
                        None,
                    )
                } else {
                    (
                        ProtocolVersion { state: VersionState::Failed, ..self },
                        VersionAction::Stop,
                        Some(NetError::IncompatiblePeer),
                    )
                }
            },
            (VersionState::AwaitingVerack, VersionEvent::PeerVerack) => {
                (ProtocolVersion { state: VersionState::Established, ..self }, VersionAction::Idle, None)
            },
            (VersionState::AwaitingVersion, VersionEvent::PeerVerack) => {
                (
                    ProtocolVersion { state: VersionState::Failed, ..self },
                    VersionAction::Stop,
                    Some(NetError::ProtocolViolation),
                )
            },
            (VersionState::AwaitingVerack, VersionEvent::PeerVersion(_)) => {
                (
                    ProtocolVersion { state: VersionState::Failed, ..self },
                    VersionAction::Stop,
                    Some(NetError::ProtocolViolation),
                )
            },
            (VersionState::AwaitingVersion, VersionEvent::Timeout) => {
                (
                    ProtocolVersion { state: VersionState::Failed, ..self },
                    VersionAction::Stop,
                    Some(NetError::HandshakeTimeout),
                )
            },
            (VersionState::AwaitingVerack, VersionEvent::Timeout) => {
                (
                    ProtocolVersion { state: VersionState::Failed, ..self },
                    VersionAction::Stop,
                    Some(NetError::HandshakeTimeout),
                )
            },
            (VersionState::Established, _) => (self, VersionAction::Idle, None),
            (VersionState::Failed, _) => (self, VersionAction::Idle, None),
        }
    }

    /// A fresh handshake for one channel, configured from the shared
    /// settings; the runtime sends the version message carrying
    /// [`Self::version`] when it starts this protocol.
    pub fn new(settings: &Settings) -> (p: ProtocolVersion)
        requires
            settings.wf(),
        ensures
            p.wf(),
            p.state == VersionState::AwaitingVersion,
            p.version_min == settings.version_min,
            p.version_max == settings.version_max,
            p.version == settings.version,
    {
        ProtocolVersion {
            version_min: settings.version_min,
            version_max: settings.version_max,
            version: settings.version,
            state: VersionState::AwaitingVersion,
        }
    }

    /// Consumes one event, as [`Self::spec_step`] says.
    pub fn step(&mut self, ev: VersionEvent) -> (r: (VersionAction, Option<NetError>))
        ensures
            (*final(self), r.0, r.1) == old(self).spec_step(ev),
            old(self).wf() ==> final(self).wf(),
    {
        match (self.state, ev) {
            (VersionState::AwaitingVersion, VersionEvent::PeerVersion(v)) => {
                if self.version_min <= v && v <= self.version_max {
                    self.state = VersionState::AwaitingVerack;
                    (VersionAction::SendVerack, None)
                } else {
                    self.state = VersionState::Failed;
                    (VersionAction::Stop, Some(NetError::IncompatiblePeer))
                }
            },
            (VersionState::AwaitingVerack, VersionEvent::PeerVerack) => {
                self.state = VersionState::Established;
                (VersionAction::Idle, None)
            },
            (VersionState::AwaitingVersion, VersionEvent::PeerVerack) => {
                self.state = VersionState::Failed;
                (VersionAction::Stop, Some(NetError::ProtocolViolation))
            },
            (VersionState::AwaitingVerack, VersionEvent::PeerVersion(_)) => {
                self.state = VersionState::Failed;
                (VersionAction::Stop, Some(NetError::ProtocolViolation))
            },
            (VersionState::AwaitingVersion, VersionEvent::Timeout) => {
                self.state = VersionState::Failed;
                (VersionAction::Stop, Some(NetError::HandshakeTimeout))
            },
            (VersionState::AwaitingVerack, VersionEvent::Timeout) => {
                self.state = VersionState::Failed;
                (VersionAction::Stop, Some(NetError::HandshakeTimeout))
            },
            (VersionState::Established, _) => (VersionAction::Idle, None),
            (VersionState::Failed, _) => (VersionAction::Idle, None),
        }
    }

    /// Whether the remaining protocols are permitted to start.
    pub fn established(&self) -> (r: bool)
        ensures
            r == (self.state == VersionState::Established),
    {
        match self.state {
            VersionState::Established => true,
            _ => false,
        }
    }
}

/// Peers with disjoint accepted ranges both fail the handshake: each side, on
/// the other's announced version, ends not `Established`, reports
/// `IncompatiblePeer` and stops its channel.
pub proof fn lemma_incompatible_ranges_both_fail(a: ProtocolVersion, b: ProtocolVersion)
    requires
        a.wf(),
        b.wf(),
        a.state == VersionState::AwaitingVersion,
        b.state == VersionState::AwaitingVersion,
        a.version_max < b.version_min || b.version_max < a.version_min,
    ensures
        ({
            let (a2, act_a, err_a) = a.spec_step(VersionEvent::PeerVersion(b.version));
            &&& a2.state != VersionState::Established
            &&& a2.state == VersionState::Failed
            &&& act_a == VersionAction::Stop
            &&& err_a == Some(NetError::IncompatiblePeer)
        }),
        ({
            let (b2, act_b, err_b) = b.spec_step(VersionEvent::PeerVersion(a.version));
            &&& b2.state != VersionState::Established
            &&& b2.state == VersionState::Failed
            &&& act_b == VersionAction::Stop
            &&& err_b == Some(NetError::IncompatiblePeer)
        }),
{
}

} // verus!
