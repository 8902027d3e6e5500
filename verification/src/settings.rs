//! Process-wide configuration shared read-only by every connection.

use vstd::prelude::*;

verus! {

/// Immutable configuration threaded into the connector, the channels and the
/// protocols. One value is shared by all connections; nothing here is mutated
/// after start-up.
#[derive(Clone, Debug)]
pub struct Settings {
    /// Bound, in seconds, on one outbound dial attempt.
    pub connect_timeout_seconds: u32,
    /// Seconds between two outbound pings on an established channel.
    pub ping_interval_seconds: u32,
    /// Seconds the keepalive waits for a pong before counting a miss.
    pub ping_timeout_seconds: u32,
    /// Lowest protocol version this node accepts from a peer.
    pub version_min: u32,
    /// Highest protocol version this node accepts from a peer.
    pub version_max: u32,
    /// The protocol version this node announces in its handshake.
    pub version: u32,
    /// Largest frame body (command plus payload bytes, as counted by the
    /// length prefix) a channel accepts; larger frames are protocol
    /// violations.
    pub max_frame_body: u32,
    /// Well-known bootstrap peers, as address strings.
    pub seed_addresses: Vec<String>,
}

/// A shared handle on the settings, cheap to hand to every connection.
pub type SettingsPtr = std::sync::Arc<Settings>;

impl Settings {
    /// The settings are coherent: the announced version lies in the accepted
    /// range, and at least the smallest frame fits under the size bound.
    pub open spec fn wf(self) -> bool {
        &&& self.version_min <= self.version <= self.version_max
        &&& self.max_frame_body >= 2
    }

    /// Whether a peer announcing `version` falls in the accepted range.
    pub fn version_in_range(&self, version: u32) -> (r: bool)
        ensures
            r == self.version_in_range_spec(version),
    {
        self.version_min <= version && version <= self.version_max
    }

    /// The accepted-range test used by the handshake contracts.
    pub open spec fn version_in_range_spec(self, version: u32) -> bool {
        self.version_min <= version <= self.version_max
    }
}

} // verus!
