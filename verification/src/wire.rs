//! The protocol messages themselves: the command tags the four built-in
//! protocols speak, and the exact payloads they carry — the handshake's
//! version number and the keepalive's nonce as little-endian bytes, the
//! acknowledgement and the address request empty. Every message on an
//! established channel decodes to exactly one of these commands or to an
//! application command its consumer registered.

use vstd::prelude::*;
use vstd::bytes::lemma_auto_spec_u32_to_from_le_bytes;
use vstd::bytes::lemma_auto_spec_u64_to_from_le_bytes;
use vstd::bytes::spec_u32_from_le_bytes;
use vstd::bytes::spec_u32_to_le_bytes;
use vstd::bytes::spec_u64_from_le_bytes;
use vstd::bytes::spec_u64_to_le_bytes;
use vstd::bytes::u32_from_le_bytes;
use vstd::bytes::u32_to_le_bytes;
use vstd::bytes::u64_from_le_bytes;
use vstd::bytes::u64_to_le_bytes;

use crate::message::Message;
use crate::message::bytes_eq;
use crate::message::valid_message;

verus! {

/// The command tag of the handshake's version announcement.
pub open spec fn cmd_version() -> Seq<u8> {
    seq![118u8, 101u8, 114u8, 115u8, 105u8, 111u8, 110u8]
}

/// The command tag of the handshake's acknowledgement.
pub open spec fn cmd_verack() -> Seq<u8> {
    seq![118u8, 101u8, 114u8, 97u8, 99u8, 107u8]
}

/// The command tag of an outbound keepalive probe.
pub open spec fn cmd_ping() -> Seq<u8> {
    seq![112u8, 105u8, 110u8, 103u8]
}

/// The command tag of the keepalive echo.
pub open spec fn cmd_pong() -> Seq<u8> {
    seq![112u8, 111u8, 110u8, 103u8]
}

/// The command tag of a peer-address announcement.
pub open spec fn cmd_addrs() -> Seq<u8> {
    seq![97u8, 100u8, 100u8, 114u8, 115u8]
}

/// The command tag of the bootstrap's address request.
pub open spec fn cmd_getaddrs() -> Seq<u8> {
    seq![103u8, 101u8, 116u8, 97u8, 100u8, 100u8, 114u8, 115u8]
}

/// The version-announcement tag as bytes.
pub fn version_tag() -> (r: Vec<u8>)
    ensures
        r@ == cmd_version(),
{
    let v: Vec<u8> = vec![118u8, 101u8, 114u8, 115u8, 105u8, 111u8, 110u8];
    proof {
        assert(v@ =~= cmd_version());
    }
    v
}

/// The acknowledgement tag as bytes.
pub fn verack_tag() -> (r: Vec<u8>)
    ensures
        r@ == cmd_verack(),
{
    let v: Vec<u8> = vec![118u8, 101u8, 114u8, 97u8, 99u8, 107u8];
    proof {
        assert(v@ =~= cmd_verack());
    }
    v
}

/// The keepalive-probe tag as bytes.
pub fn ping_tag() -> (r: Vec<u8>)
    ensures
        r@ == cmd_ping(),
{
    let v: Vec<u8> = vec![112u8, 105u8, 110u8, 103u8];
    proof {
        assert(v@ =~= cmd_ping());
    }
    v
}

/// The keepalive-echo tag as bytes.
pub fn pong_tag() -> (r: Vec<u8>)
    ensures
        r@ == cmd_pong(),
{
    let v: Vec<u8> = vec![112u8, 111u8, 110u8, 103u8];
    proof {
        assert(v@ =~= cmd_pong());
    }
    v
}

/// The address-announcement tag as bytes.
pub fn addrs_tag() -> (r: Vec<u8>)
    ensures
        r@ == cmd_addrs(),
{
    let v: Vec<u8> = vec![97u8, 100u8, 100u8, 114u8, 115u8];
    proof {
        assert(v@ =~= cmd_addrs());
    }
    v
}

/// The address-request tag as bytes.
pub fn getaddrs_tag() -> (r: Vec<u8>)
    ensures
        r@ == cmd_getaddrs(),
{
    let v: Vec<u8> = vec![103u8, 101u8, 116u8, 97u8, 100u8, 100u8, 114u8, 115u8];
    proof {
        assert(v@ =~= cmd_getaddrs());
    }
    v
}

/// The version announcement: the announced protocol version as four
/// little-endian bytes.
pub fn version_message(version: u32) -> (m: Message)
    ensures
        m@.command == cmd_version(),
        m@.payload == spec_u32_to_le_bytes(version),
        valid_message(m@, 12),
{
    proof {
        lemma_auto_spec_u32_to_from_le_bytes();
    }
    Message { command: version_tag(), payload: u32_to_le_bytes(version) }
}

/// The version a well-formed announcement carries; anything else carries
/// none.
pub fn parse_version(m: &Message) -> (r: Option<u32>)
    ensures
        m@.command == cmd_version() && m@.payload.len() == 4 ==> r == Some(
            spec_u32_from_le_bytes(m@.payload),
        ),
        !(m@.command == cmd_version() && m@.payload.len() == 4) ==> r is None,
{
    let tag = version_tag();
    if !bytes_eq(&m.command, &tag) || m.payload.len() != 4 {
        return None;
    }
    Some(u32_from_le_bytes(m.payload.as_slice()))
}

/// The handshake acknowledgement: no payload.
pub fn verack_message() -> (m: Message)
    ensures
        m@.command == cmd_verack(),
        m@.payload.len() == 0,
        valid_message(m@, 7),
{
    Message { command: verack_tag(), payload: Vec::new() }
}

/// Whether a message is the handshake acknowledgement.
pub fn is_verack(m: &Message) -> (r: bool)
    ensures
        r == (m@.command == cmd_verack()),
{
    let tag = verack_tag();
    bytes_eq(&m.command, &tag)
}

/// A keepalive probe carrying its nonce as eight little-endian bytes.
pub fn ping_message(nonce: u64) -> (m: Message)
    ensures
        m@.command == cmd_ping(),
        m@.payload == spec_u64_to_le_bytes(nonce),
        valid_message(m@, 13),
{
    proof {
        lemma_auto_spec_u64_to_from_le_bytes();
    }
    Message { command: ping_tag(), payload: u64_to_le_bytes(nonce) }
}

/// The keepalive echo carrying the nonce it answers.
pub fn pong_message(nonce: u64) -> (m: Message)
    ensures
        m@.command == cmd_pong(),
        m@.payload == spec_u64_to_le_bytes(nonce),
        valid_message(m@, 13),
{
    proof {
        lemma_auto_spec_u64_to_from_le_bytes();
    }
    Message { command: pong_tag(), payload: u64_to_le_bytes(nonce) }
}

/// The nonce a well-formed probe or echo on `tag` carries.
fn parse_nonce_with(m: &Message, tag: &Vec<u8>) -> (r: Option<u64>)
    ensures
        m@.command == tag@ && m@.payload.len() == 8 ==> r == Some(
            spec_u64_from_le_bytes(m@.payload),
        ),
        !(m@.command == tag@ && m@.payload.len() == 8) ==> r is None,
{
    if !bytes_eq(&m.command, tag) || m.payload.len() != 8 {
        return None;
    }
    Some(u64_from_le_bytes(m.payload.as_slice()))
}

/// The nonce a well-formed keepalive probe carries; anything else carries
/// none.
pub fn parse_ping(m: &Message) -> (r: Option<u64>)
    ensures
        m@.command == cmd_ping() && m@.payload.len() == 8 ==> r == Some(
            spec_u64_from_le_bytes(m@.payload),
        ),
        !(m@.command == cmd_ping() && m@.payload.len() == 8) ==> r is None,
{
    let tag = ping_tag();
    parse_nonce_with(m, &tag)
}

/// The nonce a well-formed keepalive echo carries; anything else carries
/// none.
pub fn parse_pong(m: &Message) -> (r: Option<u64>)
    ensures
        m@.command == cmd_pong() && m@.payload.len() == 8 ==> r == Some(
            spec_u64_from_le_bytes(m@.payload),
        ),
        !(m@.command == cmd_pong() && m@.payload.len() == 8) ==> r is None,
{
    let tag = pong_tag();
    parse_nonce_with(m, &tag)
}

/// The bootstrap's address request: no payload.
pub fn getaddrs_message() -> (m: Message)
    ensures
        m@.command == cmd_getaddrs(),
        m@.payload.len() == 0,
        valid_message(m@, 9),
{
    Message { command: getaddrs_tag(), payload: Vec::new() }
}

/// A probe's nonce survives the wire: the ping built on any nonce parses back
/// to that nonce, and likewise the echo.
pub proof fn lemma_nonce_round_trip(nonce: u64)
    ensures
        spec_u64_from_le_bytes(spec_u64_to_le_bytes(nonce)) == nonce,
{
    lemma_auto_spec_u64_to_from_le_bytes();
}

} // verus!
