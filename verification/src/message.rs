//! The wire frame: a twelve-byte header of three little-endian words, the
//! payload, and two zero bytes.

use vstd::prelude::*;
use vstd::slice::slice_subrange;
use vstd::slice::slice_to_vec;
use crate::error::RconError;
use crate::error::RconErrorView;
use crate::word::le_bytes;
use crate::word::le_value;
use crate::word::lemma_le_bytes_of_value;
use crate::word::lemma_le_value_of_bytes;
use crate::word::push_le;
use crate::word::read_le;

verus! {

/// Packet type of a login request.
pub const LOGIN: u32 = 3;

/// Packet type of a command request.
pub const COMMAND: u32 = 2;

/// Packet type of a response, which may be one part of several.
pub const MULTI_PACKET: u32 = 0;

/// The largest value that the length field of an outbound frame may hold.
pub const CLIENT_MAX_MESSAGE_SIZE: u32 = 1460;

/// One frame of the protocol.
#[derive(Debug, PartialEq, Eq)]
pub struct Message {
    length: u32,
    request_id: u32,
    packet_type: u32,
    payload: Vec<u8>,
}

/// The fields of a [`Message`] as mathematical values.
pub struct MessageView {
    /// Bytes that follow the length field on the wire, as the frame declares it.
    pub length: u32,
    /// Chosen by the client and echoed by the server.
    pub request_id: u32,
    /// One of [`LOGIN`], [`COMMAND`] and [`MULTI_PACKET`] in a frame of the protocol.
    pub packet_type: u32,
    /// The payload. In a frame that was read it runs up to the payload's
    /// end as [`payload_offset`] gives it.
    pub payload: Seq<u8>,
}

impl View for Message {
    type V = MessageView;

    closed spec fn view(&self) -> MessageView {
        MessageView {
            length: self.length,
            request_id: self.request_id,
            packet_type: self.packet_type,
            payload: self.payload@,
        }
    }
}

/// The bytes that go on the wire for `m`: the three header words, the
/// payload, then the terminator and the padding byte.
pub open spec fn frame_bytes(m: MessageView) -> Seq<u8> {
    le_bytes(m.length) + le_bytes(m.request_id) + le_bytes(m.packet_type) + m.payload
        + seq![0u8, 0u8]
}

/// Where the payload of a received frame ends: three past the declared length.
pub open spec fn payload_offset(bytes: Seq<u8>) -> int
    recommends
        bytes.len() >= 12,
{
    le_value(bytes.subrange(0, 4)) + 3
}

/// Whether `bytes` begins with a frame that can be read: a whole header,
/// and a payload that ends neither before its start nor past the input.
pub open spec fn frame_readable(bytes: Seq<u8>) -> bool {
    &&& bytes.len() >= 12
    &&& 12 <= payload_offset(bytes) <= bytes.len()
}

/// The message that a readable input holds. Whatever follows the payload's
/// end plays no part.
pub open spec fn parsed_frame(bytes: Seq<u8>) -> MessageView
    recommends
        frame_readable(bytes),
{
    MessageView {
        length: le_value(bytes.subrange(0, 4)) as u32,
        request_id: le_value(bytes.subrange(4, 8)) as u32,
        packet_type: le_value(bytes.subrange(8, 12)) as u32,
        payload: bytes.subrange(12, payload_offset(bytes)),
    }
}

/// The header of a written frame reads back as it was written, and the
/// payload's end lies `m.length + 3` bytes in, whatever the payload is.
proof fn lemma_header_reads_back(m: MessageView)
    ensures
        frame_bytes(m).len() == 14 + m.payload.len(),
        payload_offset(frame_bytes(m)) == m.length + 3,
        le_value(frame_bytes(m).subrange(4, 8)) == m.request_id,
        le_value(frame_bytes(m).subrange(8, 12)) == m.packet_type,
{
    let bytes: Seq<u8> = frame_bytes(m);
    lemma_le_value_of_bytes(m.length);
    lemma_le_value_of_bytes(m.request_id);
    lemma_le_value_of_bytes(m.packet_type);
    assert(bytes.subrange(0, 4) =~= le_bytes(m.length));
    assert(bytes.subrange(4, 8) =~= le_bytes(m.request_id));
    assert(bytes.subrange(8, 12) =~= le_bytes(m.packet_type));
}

/// Reading back a frame as [`Message::new`] builds it, with the length field
/// ten more than the payload's length: the bytes are readable, the three
/// header fields come back unchanged, and the payload comes back followed by
/// the terminator, the first of the two zero bytes that close the frame.
pub proof fn lemma_read_written_frame(request_id: u32, packet_type: u32, payload: Seq<u8>)
    requires
        10 + payload.len() <= CLIENT_MAX_MESSAGE_SIZE,
    ensures
        ({
            let m = MessageView {
                length: (10 + payload.len()) as u32,
                request_id,
                packet_type,
                payload,
            };
            &&& frame_readable(frame_bytes(m))
            &&& parsed_frame(frame_bytes(m)) == MessageView {
                length: m.length,
                request_id,
                packet_type,
                payload: payload.push(0u8),
            }
        }),
{
    let m = MessageView { length: (10 + payload.len()) as u32, request_id, packet_type, payload };
    lemma_header_reads_back(m);
    assert(frame_bytes(m).subrange(12, m.length + 3) =~= payload.push(0u8));
}

/// A frame that was read is unchanged by writing it and reading it back:
/// its length field is nine more than the length of its payload, so the
/// payload's end, three past the length, is where the payload was written
/// to end.
pub proof fn lemma_read_frame_is_stable(bytes: Seq<u8>)
    requires
        frame_readable(bytes),
    ensures
        parsed_frame(bytes).length == 9 + parsed_frame(bytes).payload.len(),
        frame_readable(frame_bytes(parsed_frame(bytes))),
        parsed_frame(frame_bytes(parsed_frame(bytes))) == parsed_frame(bytes),
{
    let m = parsed_frame(bytes);
    lemma_le_bytes_of_value(bytes.subrange(0, 4));
    lemma_header_reads_back(m);
    assert(frame_bytes(m).subrange(12, m.length + 3) =~= m.payload);
}

/// Reading looks at no byte past the payload's end: an input that agrees
/// with a readable one up to there holds the same frame.
pub proof fn lemma_read_ignores_rest(a: Seq<u8>, b: Seq<u8>)
    requires
        frame_readable(a),
        b.len() >= payload_offset(a),
        b.subrange(0, payload_offset(a)) == a.subrange(0, payload_offset(a)),
    ensures
        frame_readable(b),
        parsed_frame(b) == parsed_frame(a),
{
    let end: int = payload_offset(a);
    let head: Seq<u8> = a.subrange(0, end);
    assert(a.subrange(0, 4) =~= head.subrange(0, 4));
    assert(b.subrange(0, 4) =~= head.subrange(0, 4));
    assert(a.subrange(4, 8) =~= head.subrange(4, 8));
    assert(b.subrange(4, 8) =~= head.subrange(4, 8));
    assert(a.subrange(8, 12) =~= head.subrange(8, 12));
    assert(b.subrange(8, 12) =~= head.subrange(8, 12));
    assert(a.subrange(12, end) =~= head.subrange(12, end));
    assert(b.subrange(12, end) =~= head.subrange(12, end));
}

impl Message {
    /// Builds the frame that carries `payload`, with the length field set to
    /// ten more than the payload's length. Fails with `OversizeMessage`
    /// exactly when that length is above [`CLIENT_MAX_MESSAGE_SIZE`].
    pub fn new(request_id: u32, packet_type: u32, payload: Vec<u8>) -> (r: Result<Message, RconError>)
        ensures
            match r {
                Ok(m) => 10 + payload@.len() <= CLIENT_MAX_MESSAGE_SIZE && m@ == (MessageView {
                    length: (10 + payload@.len()) as u32,
                    request_id,
                    packet_type,
                    payload: payload@,
                }),
                Err(e) => 10 + payload@.len() > CLIENT_MAX_MESSAGE_SIZE && e@
                    == RconErrorView::OversizeMessage,
            },
    {
        let longest: usize = CLIENT_MAX_MESSAGE_SIZE as usize - 10;
        if payload.len() > longest {
            return Err(RconError::OversizeMessage);
        }
        let length: u32 = 10 + payload.len() as u32;
        Ok(Message { length, request_id, packet_type, payload })
    }

    /// The bytes of this frame as they go on the wire.
    pub fn serialize(&self) -> (bytes: Vec<u8>)
        ensures
            bytes@ == frame_bytes(self@),
    {
        let mut ret: Vec<u8> = Vec::new();
        push_le(&mut ret, self.length);
        push_le(&mut ret, self.request_id);
        push_le(&mut ret, self.packet_type);
        let mut i: usize = 0;
        while i < self.payload.len()
            invariant
                i <= self.payload@.len(),
                ret@ == le_bytes(self.length) + le_bytes(self.request_id) + le_bytes(
                    self.packet_type,
                ) + self.payload@.subrange(0, i as int),
            decreases self.payload@.len() - i,
        {
            ret.push(self.payload[i]);
            i += 1;
        }
        ret.push(0x00);
        ret.push(0x00);
        assert(self.payload@.subrange(0, i as int) =~= self.payload@);
        assert(ret@ =~= frame_bytes(self@));
        ret
    }

    /// Reads the frame at the start of `message`: the three header words,
    /// and as payload the bytes after them, up to three past the declared
    /// length. Fails with `MalformedFrame` exactly when the input
    /// is not readable: on fewer than twelve bytes, on a declared length
    /// under nine, and on one that puts the payload's end past the input.
    pub fn from_deserialize(message: &[u8]) -> (r: Result<Message, RconError>)
        ensures
            match r {
                Ok(m) => frame_readable(message@) && m@ == parsed_frame(message@),
                Err(e) => !frame_readable(message@) && e@ == RconErrorView::MalformedFrame,
            },
    {
        if message.len() < 12 {
            return Err(RconError::MalformedFrame);
        }
        let length: u32 = read_le(message, 0);
        let request_id: u32 = read_le(message, 4);
        let packet_type: u32 = read_le(message, 8);
        let payload_end: u64 = length as u64 + 3;
        if payload_end < 12 || payload_end > message.len() as u64 {
            return Err(RconError::MalformedFrame);
        }
        let payload: Vec<u8> = slice_to_vec(slice_subrange(message, 12, payload_end as usize));
        Ok(Message { length, request_id, packet_type, payload })
    }

    /// The length field.
    pub fn length(&self) -> (r: u32)
        ensures
            r == self@.length,
    {
        self.length
    }

    /// The request id.
    pub fn request_id(&self) -> (r: u32)
        ensures
            r == self@.request_id,
    {
        self.request_id
    }

    /// The packet type.
    pub fn packet_type(&self) -> (r: u32)
        ensures
            r == self@.packet_type,
    {
        self.packet_type
    }

    /// The payload.
    pub fn payload(&self) -> (r: &Vec<u8>)
        ensures
            r@ == self@.payload,
    {
        &self.payload
    }

    /// Gives up the frame for its payload.
    pub fn into_payload(self) -> (r: Vec<u8>)
        ensures
            r@ == self@.payload,
    {
        self.payload
    }
}

} // verus!
