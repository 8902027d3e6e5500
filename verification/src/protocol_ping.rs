//! Keepalive: after the handshake, pings carrying a nonce go out on a fixed
//! interval and the matching pong must come back within a bounded wait. Too
//! many consecutive misses is a dead connection, and this protocol is
//! privileged to stop the channel then. Incoming pings from the peer are
//! answered at once, concurrently with the outbound pinger.

use vstd::prelude::*;

use crate::error::NetError;

verus! {

/// Where the outbound pinger stands.
#[derive(Clone, Copy, Debug, PartialEq, Eq, Structural)]
pub enum PingState {
    /// No ping in flight; the next interval tick sends one.
    Idle,
    /// A ping is out; its pong has not arrived yet.
    AwaitingPong,
    /// Too many pongs were missed; the channel is being stopped.
    Dead,
}

/// What the keepalive observes.
#[derive(Clone, Copy, Debug, PartialEq, Eq, Structural)]
pub enum PingEvent {
    /// The ping interval elapsed; the runtime drew this nonce for the next
    /// ping.
    IntervalTick(u64),
    /// The peer echoed this nonce back.
    PeerPong(u64),
    /// The peer sent a ping carrying this nonce.
    PeerPing(u64),
    /// The bounded wait for the outstanding pong expired.
    PongTimeout,
}

/// What the runtime must do after a step.
#[derive(Clone, Copy, Debug, PartialEq, Eq, Structural)]
pub enum PingAction {
    /// Send a ping carrying this nonce.
    SendPing(u64),
    /// Echo a pong carrying this nonce.
    SendPong(u64),
    /// Stop the channel: the connection is dead.
    Stop,
    /// Nothing to do.
    Idle,
}

/// The keepalive state machine of one established channel.
pub struct ProtocolPing {
    /// Where the outbound pinger stands.
    pub state: PingState,
    /// The nonce of the outstanding ping; meaningful in `AwaitingPong`.
    pub pending_nonce: u64,
    /// Consecutive pongs missed so far.
    pub missed: u32,
    /// Misses that count as a dead connection.
    pub max_missed: u32,
}

impl ProtocolPing {
    /// The miss counter stays under its bound.
    pub open spec fn wf(self) -> bool {
        &&& self.max_missed >= 1
        &&& self.missed < self.max_missed
    }

    /// The whole transition relation:
    /// - an interval tick with no ping in flight sends one and waits;
    /// - the matching pong clears the wait and the miss counter;
    /// - a pong with the wrong nonce, or with no ping in flight, is ignored;
    /// - an inbound peer ping is echoed at once, whatever else is pending;
    /// - an expired wait counts a miss, and on reaching the bound the
    ///   connection is dead: the channel is stopped with `PingTimeout`;
    /// - once `Dead`, the machine ignores everything.
    pub open spec fn spec_step(self, ev: PingEvent) -> (ProtocolPing, PingAction, Option<
        NetError,
    >) {
        match ev {
            PingEvent::PeerPing(n) => {
                if self.state == PingState::Dead {
                    (self, PingAction::Idle, None)
                } else {
                    (self, PingAction::SendPong(n), None)
                }
            },
            PingEvent::IntervalTick(n) => {
                if self.state == PingState::Idle {
                    (
                        ProtocolPing { state: PingState::AwaitingPong, pending_nonce: n, ..self },
                        PingAction::SendPing(n),
                        None,
                    )
                } else {
                    (self, PingAction::Idle, None)
                }
            },
            PingEvent::PeerPong(n) => {
                if self.state == PingState::AwaitingPong && n == self.pending_nonce {
                    (
                        ProtocolPing { state: PingState::Idle, missed: 0, ..self },
                        PingAction::Idle,
                        None,
                    )
                } else {
                    (self, PingAction::Idle, None)
                }
            },
            PingEvent::PongTimeout => {
                if self.state == PingState::AwaitingPong {
                    if self.missed + 1 >= self.max_missed {
                        (
                            ProtocolPing { state: PingState::Dead, ..self },
                            PingAction::Stop,
                            Some(NetError::PingTimeout),
                        )
                    } else {
                        (
                            ProtocolPing {
                                state: PingState::Idle,
                                missed: (self.missed + 1) as u32,
                                ..self
                            },
                            PingAction::Idle,
                            None,
                        )
                    }
                } else {
                    (self, PingAction::Idle, None)
                }
            },
        }
    }

    /// A fresh keepalive: idle, nothing missed, dead after `max_missed`
    /// consecutive misses.
    pub fn new(max_missed: u32) -> (p: ProtocolPing)
        requires
            max_missed >= 1,
        ensures
            p.wf(),
            p.state == PingState::Idle,
            p.missed == 0,
            p.max_missed == max_missed,
    {
        ProtocolPing { state: PingState::Idle, pending_nonce: 0, missed: 0, max_missed }
    }

    /// Consumes one event, as [`Self::spec_step`] says.
    pub fn step(&mut self, ev: PingEvent) -> (r: (PingAction, Option<NetError>))
        requires
            old(self).wf(),
        ensures
            (*final(self), r.0, r.1) == old(self).spec_step(ev),
            final(self).wf(),
    {
        match ev {
            PingEvent::PeerPing(n) => {
                match self.state {
                    PingState::Dead => (PingAction::Idle, None),
                    _ => (PingAction::SendPong(n), None),
                }
            },
            PingEvent::IntervalTick(n) => {
                match self.state {
                    PingState::Idle => {
                        self.state = PingState::AwaitingPong;
                        self.pending_nonce = n;
                        (PingAction::SendPing(n), None)
                    },
                    _ => (PingAction::Idle, None),
                }
            },
            PingEvent::PeerPong(n) => {
                match self.state {
                    PingState::AwaitingPong => {
                        if n == self.pending_nonce {
                            self.state = PingState::Idle;
                            self.missed = 0;
                            (PingAction::Idle, None)
                        } else {
                            (PingAction::Idle, None)
                        }
                    },
                    _ => (PingAction::Idle, None),
                }
            },
            PingEvent::PongTimeout => {
                match self.state {
                    PingState::AwaitingPong => {
                        if self.missed >= self.max_missed - 1 {
                            self.state = PingState::Dead;
                            (PingAction::Stop, Some(NetError::PingTimeout))
                        } else {
                            self.state = PingState::Idle;
                            self.missed = self.missed + 1;
                            (PingAction::Idle, None)
                        }
                    },
                    _ => (PingAction::Idle, None),
                }
            },
        }
    }
}

/// Two consecutive silent ping rounds kill the connection: from an idle
/// keepalive that counts two misses as dead, a ping with no pong within its
/// wait, then another, ends with the channel stopped and `PingTimeout`
/// reported. With each wait bounded by the configured pong timeout, the stop
/// comes within two such waits of the first ping.
pub proof fn lemma_two_missed_pongs_stop(p: ProtocolPing, n1: u64, n2: u64)
    requires
        p.wf(),
        p.state == PingState::Idle,
        p.missed == 0,
        p.max_missed == 2,
    ensures
        ({
            let (p1, a1, e1) = p.spec_step(PingEvent::IntervalTick(n1));
            let (p2, a2, e2) = p1.spec_step(PingEvent::PongTimeout);
            let (p3, a3, e3) = p2.spec_step(PingEvent::IntervalTick(n2));
            let (p4, a4, e4) = p3.spec_step(PingEvent::PongTimeout);
            &&& a1 == PingAction::SendPing(n1)
            &&& e1 is None
            &&& a2 == PingAction::Idle
            &&& e2 is None
            &&& a3 == PingAction::SendPing(n2)
            &&& e3 is None
            &&& a4 == PingAction::Stop
            &&& e4 == Some(NetError::PingTimeout)
            &&& p4.state == PingState::Dead
        }),
{
}

} // verus!
