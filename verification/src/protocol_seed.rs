//! Bootstrap: the one-shot protocol run on a transient connection to a
//! configured seed peer. Once the channel is established it asks for the
//! peer's known addresses, waits a bounded time for the answer, forwards
//! every received entry to the address store, and then stops its own channel:
//! this is the one protocol expected to end the connection itself.

use vstd::prelude::*;

verus! {

/// Where the bootstrap stands.
#[derive(Clone, Copy, Debug, PartialEq, Eq, Structural)]
pub enum SeedState {
    /// Waiting for the channel's handshake to complete.
    AwaitingEstablished,
    /// The address request is out; waiting a bounded time for the answer.
    AwaitingAddrs,
    /// The one shot is over; the channel is stopping.
    Done,
}

/// What the bootstrap observes.
pub enum SeedEvent {
    /// The channel's handshake completed.
    Established,
    /// The seed peer answered with these addresses.
    PeerAddrs(Vec<String>),
    /// The bounded wait for the answer expired.
    Timeout,
}

/// What the runtime must do after a step.
#[derive(Clone, Debug, PartialEq, Eq)]
pub enum SeedAction {
    /// Ask the seed peer for its known addresses.
    SendGetAddrs,
    /// Hand these addresses to the address store, then stop this channel.
    ForwardAndStop(Vec<String>),
    /// Stop this channel with nothing to forward.
    Stop,
    /// Nothing to do.
    Idle,
}

/// The bootstrap state machine of one seed connection.
pub struct ProtocolSeed {
    /// Where the bootstrap stands.
    pub state: SeedState,
}

impl ProtocolSeed {
    /// The whole transition relation:
    /// - establishment sends the address request and starts the bounded wait;
    /// - the answer is forwarded whole — every entry, unchanged and in order —
    ///   and the channel is stopped, the shot done;
    /// - an expired wait stops the channel with nothing forwarded;
    /// - everything else, and everything after `Done`, is ignored.
    pub open spec fn spec_step(self, ev: SeedEvent) -> (ProtocolSeed, SeedAction) {
        match (self.state, ev) {
            (SeedState::AwaitingEstablished, SeedEvent::Established) => (
                ProtocolSeed { state: SeedState::AwaitingAddrs },
                SeedAction::SendGetAddrs,
            ),
            (SeedState::AwaitingAddrs, SeedEvent::PeerAddrs(addrs)) => (
                ProtocolSeed { state: SeedState::Done },
                SeedAction::ForwardAndStop(addrs),
            ),
            (SeedState::AwaitingAddrs, SeedEvent::Timeout) => (
                ProtocolSeed { state: SeedState::Done },
                SeedAction::Stop,
            ),
            _ => (self, SeedAction::Idle),
        }
    }

    /// A fresh bootstrap, waiting for its channel to establish.
    pub fn new() -> (p: ProtocolSeed)
        ensures
            p.state == SeedState::AwaitingEstablished,
    {
        ProtocolSeed { state: SeedState::AwaitingEstablished }
    }

    /// Consumes one event, as [`Self::spec_step`] says.
    pub fn step(&mut self, ev: SeedEvent) -> (r: SeedAction)
        ensures
            (*final(self), r) == old(self).spec_step(ev),
    {
        match ev {
            SeedEvent::Established => {
                match self.state {
                    SeedState::AwaitingEstablished => {
                        self.state = SeedState::AwaitingAddrs;
                        SeedAction::SendGetAddrs
                    },
                    _ => SeedAction::Idle,
                }
            },
            SeedEvent::PeerAddrs(addrs) => {
                match self.state {
                    SeedState::AwaitingAddrs => {
                        self.state = SeedState::Done;
                        SeedAction::ForwardAndStop(addrs)
                    },
                    _ => SeedAction::Idle,
                }
            },
            SeedEvent::Timeout => {
                match self.state {
                    SeedState::AwaitingAddrs => {
                        self.state = SeedState::Done;
                        SeedAction::Stop
                    },
                    _ => SeedAction::Idle,
                }
            },
        }
    }
}

/// The bootstrap round trip: once its channel establishes, the protocol asks
/// for addresses, and an answer of any N entries is forwarded to the store as
/// exactly those N entries, after which the bootstrap is done and its channel
/// stopping.
pub proof fn lemma_seed_forwards_exactly(addrs: Vec<String>)
    ensures
        ({
            let p0 = ProtocolSeed { state: SeedState::AwaitingEstablished };
            let (p1, a1) = p0.spec_step(SeedEvent::Established);
            let (p2, a2) = p1.spec_step(SeedEvent::PeerAddrs(addrs));
            &&& a1 == SeedAction::SendGetAddrs
            &&& a2 == SeedAction::ForwardAndStop(addrs)
            &&& p2.state == SeedState::Done
        }),
{
}

} // verus!
