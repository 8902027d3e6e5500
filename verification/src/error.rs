//! Error kinds surfaced by the networking core.

use vstd::prelude::*;

verus! {

/// Every failure the networking core can report.
///
/// Transport- and channel-level failures (`ConnectionFailed`, `WriteError`,
/// `ReadError`, `ProtocolViolation`) are fatal to their connection; the
/// protocol-level failures (`IncompatiblePeer`, `HandshakeTimeout`,
/// `PingTimeout`) are raised by the privileged protocols on their defined
/// fatal conditions. `ChannelStopped` is the cancellation outcome every
/// pending operation resolves to once a channel's stop signal fires.
#[derive(Clone, Copy, Debug, PartialEq, Eq, Structural)]
pub enum NetError {
    /// Dialing failed or timed out.
    ConnectionFailed,
    /// The target address carries a scheme no transport serves.
    UnsupportedTransport,
    /// I/O failure while writing to an established stream.
    WriteError,
    /// I/O failure while reading from an established stream.
    ReadError,
    /// Malformed frame, or a command no subscriber recognizes.
    ProtocolViolation,
    /// The peer's protocol version lies outside the supported range.
    IncompatiblePeer,
    /// The version handshake did not complete within its bounded wait.
    HandshakeTimeout,
    /// The peer missed too many consecutive pongs.
    PingTimeout,
    /// The operation was cancelled because the channel stopped.
    ChannelStopped,
}

impl NetError {
    /// A short, stable name for the error kind.
    pub fn as_str(&self) -> (r: &'static str)
        ensures
            r@ == self.name_spec(),
    {
        match self {
            NetError::ConnectionFailed => "connection failed",
            NetError::UnsupportedTransport => "unsupported transport",
            NetError::WriteError => "write error",
            NetError::ReadError => "read error",
            NetError::ProtocolViolation => "protocol violation",
            NetError::IncompatiblePeer => "incompatible peer",
            NetError::HandshakeTimeout => "handshake timeout",
            NetError::PingTimeout => "ping timeout",
            NetError::ChannelStopped => "channel stopped",
        }
    }

    /// What `as_str` returns for each kind.
    pub open spec fn name_spec(self) -> Seq<char> {
        match self {
            NetError::ConnectionFailed => "connection failed"@,
            NetError::UnsupportedTransport => "unsupported transport"@,
            NetError::WriteError => "write error"@,
            NetError::ReadError => "read error"@,
            NetError::ProtocolViolation => "protocol violation"@,
            NetError::IncompatiblePeer => "incompatible peer"@,
            NetError::HandshakeTimeout => "handshake timeout"@,
            NetError::PingTimeout => "ping timeout"@,
            NetError::ChannelStopped => "channel stopped"@,
        }
    }

    /// Whether this failure is fatal to the whole connection wherever it
    /// arises, as opposed to one a single protocol may tolerate.
    pub fn is_channel_fatal(&self) -> (r: bool)
        ensures
            r == self.channel_fatal_spec(),
    {
        match self {
            NetError::WriteError => true,
            NetError::ReadError => true,
            NetError::ProtocolViolation => true,
            _ => false,
        }
    }

    /// The channel-level failures: I/O errors and framing violations.
    pub open spec fn channel_fatal_spec(self) -> bool {
        self == NetError::WriteError || self == NetError::ReadError
            || self == NetError::ProtocolViolation
    }
}

} // verus!
