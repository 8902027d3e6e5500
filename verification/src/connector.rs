//! Outbound connections: the connector reads the scheme out of the target
//! address, picks the transport that serves it, and bounds the dial by the
//! configured timeout. The dial itself is the runtime's I/O; everything
//! decided here — scheme, transport, timeout, and how the dial's outcome
//! becomes a channel or a typed failure — is verified.

use vstd::prelude::*;

use crate::channel::Channel;
use crate::error::NetError;
use crate::settings::SettingsPtr;

verus! {

/// The scheme of an address string, as the URL grammar reads it: `None` when
/// the address is no URL at all.
pub uninterp spec fn scheme_of(s: Seq<char>) -> Option<Seq<char>>;

/// Relies on `url::Url::parse` and `url::Url::scheme`: parsing is
/// deterministic, a function of the address text alone, and `scheme` returns
/// the parsed URL's scheme part.
#[verifier::external_body]
fn parse_scheme(addr: &str) -> (r: Option<String>)
    ensures
        r is Some <==> scheme_of(addr@) is Some,
        r matches Some(s) ==> scheme_of(addr@) matches Some(t) && s@ == t,
{
    match url::Url::parse(addr) {
        Ok(u) => Some(u.scheme().to_owned()),
        Err(_) => None,
    }
}

/// The transports this node can dial with.
#[derive(Clone, Copy, Debug, PartialEq, Eq, Structural)]
pub enum TransportKind {
    /// Plain stream.
    Tcp,
    /// Encrypted stream.
    Tls,
}

/// Which transport serves a scheme: `tcp` the plain one, `tls` the encrypted
/// one, and every other scheme is refused rather than silently defaulted.
pub open spec fn transport_for(scheme: Seq<char>) -> Result<TransportKind, NetError> {
    if scheme == "tcp"@ {
        Ok(TransportKind::Tcp)
    } else if scheme == "tls"@ {
        Ok(TransportKind::Tls)
    } else {
        Err(NetError::UnsupportedTransport)
    }
}

/// Picks the transport for one scheme, exactly as [`transport_for`] says.
fn select_transport(scheme: &String) -> (r: Result<TransportKind, NetError>)
    ensures
        r == transport_for(scheme@),
{
    let tcp: String = "tcp".to_owned();
    let tls: String = "tls".to_owned();
    if scheme.eq(&tcp) {
        Ok(TransportKind::Tcp)
    } else if scheme.eq(&tls) {
        Ok(TransportKind::Tls)
    } else {
        Err(NetError::UnsupportedTransport)
    }
}

/// Everything the runtime needs to perform one dial: the transport to use
/// and the bound on the attempt.
#[derive(Clone, Copy, Debug, PartialEq, Eq, Structural)]
pub struct DialPlan {
    /// The transport serving the target's scheme.
    pub transport: TransportKind,
    /// Bound on the dial, in seconds.
    pub timeout_seconds: u32,
}

/// Creates outbound connections.
pub struct Connector {
    /// The shared network settings.
    pub settings: SettingsPtr,
}

impl Connector {
    /// A new connector on the shared network settings.
    pub fn new(settings: SettingsPtr) -> (c: Self)
        ensures
            c.settings == settings,
    {
        Connector { settings }
    }

    /// The decision half of `connect`: reads the scheme out of the target
    /// address and yields the dial plan — matching transport, configured
    /// timeout. An address that is no URL fails as a dial would,
    /// `ConnectionFailed`; a scheme no transport serves fails fast with
    /// `UnsupportedTransport`.
    pub fn connect_plan(&self, addr: &str) -> (r: Result<DialPlan, NetError>)
        ensures
            match scheme_of(addr@) {
                Option::None => r == Err::<DialPlan, NetError>(NetError::ConnectionFailed),
                Option::Some(s) => r == match transport_for(s) {
                    Ok(t) => Ok::<DialPlan, NetError>(
                        DialPlan {
                            transport: t,
                            timeout_seconds: self.settings.connect_timeout_seconds,
                        },
                    ),
                    Err(e) => Err::<DialPlan, NetError>(e),
                },
            },
    {
        let scheme = match parse_scheme(addr) {
            Some(s) => s,
            None => {
                return Err(NetError::ConnectionFailed);
            },
        };
        let transport = match select_transport(&scheme) {
            Ok(t) => t,
            Err(e) => {
                return Err(e);
            },
        };
        Ok(DialPlan { transport, timeout_seconds: self.settings.connect_timeout_seconds })
    }

    /// The outcome half of `connect`: a stream dialed within the timeout
    /// (`dialed`) becomes a fresh channel on the resolved address; a dial
    /// failure or an expired timeout is `ConnectionFailed`. The new channel
    /// is registered nowhere — that is the caller's business.
    pub fn finish_connect(&self, dialed: bool, id: u64, address: String) -> (r: Result<
        Channel,
        NetError,
    >)
        requires
            self.settings.max_frame_body >= 2,
        ensures
            match r {
                Ok(c) => {
                    &&& dialed
                    &&& c.wf()
                    &&& !c.stopped
                    &&& c.id == id
                    &&& c.address@ == address@
                    &&& c.max_frame_body == self.settings.max_frame_body
                    &&& c.subs@.len() == 0
                    &&& c.received@ == Seq::<crate::message::MessageView>::empty()
                    &&& c.outbox@ == Seq::<u8>::empty()
                    &&& c.sent@ == Seq::<crate::message::MessageView>::empty()
                },
                Err(e) => !dialed && e == NetError::ConnectionFailed,
            },
    {
        if !dialed {
            return Err(NetError::ConnectionFailed);
        }
        Ok(Channel::new(id, address, self.settings.max_frame_body))
    }
}

} // verus!
