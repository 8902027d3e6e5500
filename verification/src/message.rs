//! Wire framing: one frame is `[length prefix][command][payload]`, where the
//! length prefix is a little-endian `u32` counting every byte after it (the
//! command-length byte, the command and the payload), and the command is a
//! short tag of 1 to 255 bytes preceded by its one-byte length.

use vstd::prelude::*;
use vstd::bytes::lemma_auto_spec_u32_to_from_le_bytes;
use vstd::bytes::spec_u32_from_le_bytes;
use vstd::bytes::spec_u32_to_le_bytes;
use vstd::bytes::u32_from_le_bytes;
use vstd::bytes::u32_to_le_bytes;
use vstd::slice::slice_subrange;
use vstd::slice::slice_to_vec;

use crate::error::NetError;

verus! {

/// The unit exchanged on the wire: a command tag naming the kind of message,
/// and the command-specific serialized payload.
#[derive(Clone, Debug, PartialEq, Eq)]
pub struct Message {
    /// Short identifier of the message kind, 1 to 255 bytes.
    pub command: Vec<u8>,
    /// Command-specific serialized body.
    pub payload: Vec<u8>,
}

/// The mathematical value of a `Message`: both fields as byte sequences.
pub struct MessageView {
    pub command: Seq<u8>,
    pub payload: Seq<u8>,
}

impl View for Message {
    type V = MessageView;

    open spec fn view(&self) -> MessageView {
        MessageView { command: self.command@, payload: self.payload@ }
    }
}

impl Message {
    /// A copy of this message carrying the same bytes.
    pub fn duplicate(&self) -> (r: Message)
        ensures
            r@ == self@,
    {
        Message {
            command: slice_to_vec(self.command.as_slice()),
            payload: slice_to_vec(self.payload.as_slice()),
        }
    }
}

/// Number of bytes the length prefix counts: the command-length byte, the
/// command and the payload.
pub open spec fn body_len(m: MessageView) -> int {
    1 + m.command.len() as int + m.payload.len() as int
}

/// A frame this codec can put on the wire under the size bound `max_body`:
/// the command is 1 to 255 bytes and the counted body fits the bound.
pub open spec fn valid_message(m: MessageView, max_body: u32) -> bool {
    &&& 1 <= m.command.len() <= 255
    &&& body_len(m) <= max_body
}

/// The exact bytes a message occupies on the wire.
pub open spec fn frame_bytes(m: MessageView) -> Seq<u8> {
    spec_u32_to_le_bytes(body_len(m) as u32) + seq![m.command.len() as u8] + m.command
        + m.payload
}

/// The body length a buffer's first four bytes declare.
pub open spec fn declared_body_len(bytes: Seq<u8>) -> int
    recommends
        bytes.len() >= 4,
{
    spec_u32_from_le_bytes(bytes.subrange(0, 4)) as int
}

/// What decoding a whole frame buffer yields: the message, if the buffer is
/// exactly one well-formed frame whose declared body is within `max_body`;
/// nothing otherwise.
pub open spec fn parse_frame(bytes: Seq<u8>, max_body: u32) -> Option<MessageView> {
    if bytes.len() < 4 {
        None
    } else {
        let body = declared_body_len(bytes);
        if !(2 <= body <= max_body) {
            None
        } else if bytes.len() - 4 != body {
            None
        } else {
            let cmd_len = bytes[4] as int;
            if cmd_len < 1 || 1 + cmd_len > body {
                None
            } else {
                Some(
                    MessageView {
                        command: bytes.subrange(5, 5 + cmd_len),
                        payload: bytes.subrange(5 + cmd_len, bytes.len() as int),
                    },
                )
            }
        }
    }
}

/// Byte-sequence equality of two byte vectors.
pub(crate) fn bytes_eq(a: &Vec<u8>, b: &Vec<u8>) -> (r: bool)
    ensures
        r == (a@ == b@),
{
    if a.len() != b.len() {
        return false;
    }
    let mut i: usize = 0;
    while i < a.len()
        invariant
            a@.len() == b@.len(),
            i <= a@.len(),
            forall|j: int| 0 <= j < i ==> a@[j] == b@[j],
        decreases a@.len() - i,
    {
        if a[i] != b[i] {
            return false;
        }
        i = i + 1;
    }
    assert(a@ =~= b@);
    true
}

/// Serializes one message into the exact frame bytes. The frame is built
/// whole, so a caller writing it writes one atomic unit.
pub fn encode_frame(m: &Message, max_body: u32) -> (r: Vec<u8>)
    requires
        valid_message(m@, max_body),
        body_len(m@) + 4 <= usize::MAX,
    ensures
        r@ == frame_bytes(m@),
        r@.len() == 4 + body_len(m@),
{
    let body: usize = 1 + m.command.len() + m.payload.len();
    let mut out = u32_to_le_bytes(body as u32);
    out.push(m.command.len() as u8);
    let mut i: usize = 0;
    while i < m.command.len()
        invariant
            i <= m.command@.len(),
            out@ == spec_u32_to_le_bytes(body_len(m@) as u32) + seq![m@.command.len() as u8]
                + m@.command.subrange(0, i as int),
        decreases m.command@.len() - i,
    {
        out.push(m.command[i]);
        i = i + 1;
        assert(m@.command.subrange(0, i as int) =~= m@.command.subrange(0, i - 1).push(
            m@.command[i - 1],
        ));
    }
    assert(m@.command.subrange(0, m@.command.len() as int) =~= m@.command);
    let mut j: usize = 0;
    while j < m.payload.len()
        invariant
            j <= m.payload@.len(),
            out@ == spec_u32_to_le_bytes(body_len(m@) as u32) + seq![m@.command.len() as u8]
                + m@.command + m@.payload.subrange(0, j as int),
        decreases m.payload@.len() - j,
    {
        out.push(m.payload[j]);
        j = j + 1;
        assert(m@.payload.subrange(0, j as int) =~= m@.payload.subrange(0, j - 1).push(
            m@.payload[j - 1],
        ));
    }
    assert(m@.payload.subrange(0, m@.payload.len() as int) =~= m@.payload);
    proof {
        lemma_auto_spec_u32_to_from_le_bytes();
    }
    out
}

/// Reads a frame's length prefix alone and checks it against the size bound,
/// so that an oversized frame is rejected before its payload is ever
/// buffered. `Ok` carries the declared body length; `Err` is the protocol
/// violation for a declared length outside `[2, max_body]`.
pub fn frame_body_len(header: &[u8], max_body: u32) -> (r: Result<u32, NetError>)
    requires
        header@.len() >= 4,
    ensures
        match r {
            Ok(n) => 2 <= n <= max_body && n == declared_body_len(header@),
            Err(e) => {
                &&& e == NetError::ProtocolViolation
                &&& !(2 <= declared_body_len(header@) <= max_body)
            },
        },
{
    let prefix = slice_subrange(header, 0, 4);
    let n = u32_from_le_bytes(prefix);
    if 2 <= n && n <= max_body {
        Ok(n)
    } else {
        Err(NetError::ProtocolViolation)
    }
}

/// Decodes one whole frame buffer. Succeeds exactly on the buffers that are
/// one well-formed frame within the size bound; every malformed or oversized
/// buffer is a protocol violation.
pub fn decode_frame(bytes: &[u8], max_body: u32) -> (r: Result<Message, NetError>)
    ensures
        match r {
            Ok(m) => parse_frame(bytes@, max_body) == Some(m@),
            Err(e) => e == NetError::ProtocolViolation && parse_frame(bytes@, max_body) is None,
        },
{
    if bytes.len() < 4 {
        return Err(NetError::ProtocolViolation);
    }
    let body = match frame_body_len(bytes, max_body) {
        Ok(n) => n,
        Err(e) => {
            return Err(e);
        },
    };
    if bytes.len() - 4 != body as usize {
        return Err(NetError::ProtocolViolation);
    }
    let cmd_len = bytes[4];
    if cmd_len < 1 || 1 + cmd_len as u32 > body {
        return Err(NetError::ProtocolViolation);
    }
    let command = slice_to_vec(slice_subrange(bytes, 5, 5 + cmd_len as usize));
    let payload = slice_to_vec(slice_subrange(bytes, 5 + cmd_len as usize, bytes.len()));
    Ok(Message { command, payload })
}

/// Framing round trip: decoding the encoding of any valid message yields the
/// message back.
pub proof fn lemma_frame_round_trip(m: MessageView, max_body: u32)
    requires
        valid_message(m, max_body),
    ensures
        parse_frame(frame_bytes(m), max_body) == Some(m),
{
    lemma_auto_spec_u32_to_from_le_bytes();
    let bytes = frame_bytes(m);
    let body = body_len(m);
    assert(bytes.subrange(0, 4) =~= spec_u32_to_le_bytes(body as u32));
    assert(bytes.len() - 4 == body);
    assert(bytes[4] == m.command.len() as u8);
    assert(bytes.subrange(5, 5 + m.command.len() as int) =~= m.command);
    assert(bytes.subrange(5 + m.command.len() as int, bytes.len() as int) =~= m.payload);
    assert(parse_frame(bytes, max_body) == Some(m));
}

/// A frame whose declared length exceeds the configured bound never decodes,
/// and the rejection is decided by the four prefix bytes alone — before any
/// of the declared payload is buffered, as [`frame_body_len`] reads only the
/// prefix.
pub proof fn lemma_oversized_frame_rejected(bytes: Seq<u8>, max_body: u32)
    requires
        bytes.len() >= 4,
        declared_body_len(bytes) > max_body,
    ensures
        parse_frame(bytes, max_body) is None,
{
}

/// Frames are unambiguous: a buffer that decodes at all is exactly the
/// encoding of the message it decodes to, and that message is valid under
/// the same bound.
pub proof fn lemma_parse_exact(bytes: Seq<u8>, max_body: u32, m: MessageView)
    requires
        parse_frame(bytes, max_body) == Some(m),
    ensures
        valid_message(m, max_body),
        frame_bytes(m) == bytes,
{
    lemma_auto_spec_u32_to_from_le_bytes();
    let body = declared_body_len(bytes);
    let cmd_len = bytes[4] as int;
    assert(m.command.len() == cmd_len);
    assert(m.payload.len() == bytes.len() - 5 - cmd_len);
    assert(body_len(m) == body);
    assert(frame_bytes(m) =~= bytes);
}

} // verus!
