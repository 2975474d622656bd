//! Protocol control messages and the framing of the server's replies.

use vstd::prelude::*;

use crate::basic_header::{basic_header_bytes, BasicHeader1};
use crate::bytes::{append, array_at, be_u32, be_u32_bytes, read_be_u32, write_be_u32};
use crate::message_header::{type0_bytes, MessageHeaderType0};

verus! {

/// The acknowledgement window that the server announces.
pub const WINDOW_ACKNOWLEDGEMENT_SIZE: u32 = 5000000;

/// The limit type of the server's Set Peer Bandwidth message (dynamic).
pub const PEER_BANDWIDTH_LIMIT_TYPE: u8 = 2;

/// The chunk stream of protocol control messages.
pub const CONTROL_CHUNK_STREAM_ID: u8 = 2;

/// The chunk stream of command replies.
pub const COMMAND_CHUNK_STREAM_ID: u8 = 3;

/// Message type ids of the messages the server sends.
pub const WINDOW_ACKNOWLEDGEMENT_SIZE_TYPE_ID: u8 = 5;
pub const SET_PEER_BANDWIDTH_TYPE_ID: u8 = 6;
pub const COMMAND_AMF0_TYPE_ID: u8 = 20;

/// Set Chunk Size (type 1): the new maximum chunk size, big-endian.
#[derive(Debug, Clone, Copy)]
pub struct SetChunkSize {
    pub payload: [u8; 4],
}

impl SetChunkSize {
    pub fn new(payload: [u8; 4]) -> (r: Self)
        ensures
            r.payload == payload,
    {
        Self { payload }
    }

    /// The message in a chunk's payload, which must be four bytes long.
    pub fn from_payload(data: &[u8]) -> (r: Option<Self>)
        ensures
            r is Some <==> data@.len() == 4,
            r is Some ==> r->Some_0.payload@ == data@,
    {
        if data.len() != 4 {
            return None;
        }
        let payload = array_at::<4>(data, 0);
        assert(data@.subrange(0, 4) =~= data@);
        Some(Self::new(payload))
    }

    /// The chunk size that the peer announces.
    pub fn chunk_size(&self) -> (r: u32)
        ensures
            r == be_u32(self.payload@),
    {
        let r = read_be_u32(self.payload.as_slice(), 0);
        assert(self.payload@.subrange(0, 4) =~= self.payload@);
        r
    }
}

/// Window Acknowledgement Size (type 5): the window, big-endian.
#[derive(Debug, Clone, Copy)]
pub struct AcknowledgementWindowSize {
    pub payload: [u8; 4],
}

impl AcknowledgementWindowSize {
    pub fn new(payload: [u8; 4]) -> (r: Self)
        ensures
            r.payload == payload,
    {
        Self { payload }
    }
}

/// Set Peer Bandwidth (type 6): the window, big-endian, and a limit type.
#[derive(Debug, Clone, Copy)]
pub struct SetPeerBandwidth {
    pub payload: [u8; 5],
}

impl SetPeerBandwidth {
    pub fn new(payload: [u8; 5]) -> (r: Self)
        ensures
            r.payload == payload,
    {
        Self { payload }
    }

    pub fn new_from_values(ack_win_size: u32, limit_type: u8) -> (r: Self)
        ensures
            r.payload@ == be_u32_bytes(ack_win_size as int) + seq![limit_type],
    {
        let w = write_be_u32(ack_win_size);
        let payload = [w[0], w[1], w[2], w[3], limit_type];
        assert(payload@ =~= be_u32_bytes(ack_win_size as int) + seq![limit_type]);
        Self { payload }
    }
}

/// User Control Message (type 4): an event type and its data.
#[derive(Debug)]
pub struct UserControlMessage {
    pub payload: Vec<u8>,
}

impl UserControlMessage {
    pub fn new(payload: Vec<u8>) -> (r: Self)
        ensures
            r.payload == payload,
    {
        Self { payload }
    }
}

/// Command Message in AMF0 (type 20): AMF0-encoded command name,
/// transaction id and command object.
#[derive(Debug)]
pub struct CommandMessageAmf0 {
    pub payload: Vec<u8>,
}

impl CommandMessageAmf0 {
    pub fn new(data: Vec<u8>) -> (r: Self)
        ensures
            r.payload == data,
    {
        Self { payload: data }
    }
}

/// A whole message in one chunk with a type 0 header: zero timestamp, zero
/// message stream id.
pub open spec fn message_chunk_bytes(cs_id: u8, message_type_id: u8, payload: Seq<u8>) -> Seq<u8> {
    basic_header_bytes(0, cs_id as int) + type0_bytes(0, payload.len() as int, message_type_id, 0)
        + payload
}

/// What the server sends in answer to `connect`: the window acknowledgement
/// size and the peer bandwidth on the control chunk stream, then the
/// AMF0-encoded `_result` reply `result` on the command chunk stream.
pub open spec fn connect_response_bytes(result: Seq<u8>) -> Seq<u8> {
    message_chunk_bytes(
        CONTROL_CHUNK_STREAM_ID,
        WINDOW_ACKNOWLEDGEMENT_SIZE_TYPE_ID,
        be_u32_bytes(WINDOW_ACKNOWLEDGEMENT_SIZE as int),
    ) + message_chunk_bytes(
        CONTROL_CHUNK_STREAM_ID,
        SET_PEER_BANDWIDTH_TYPE_ID,
        be_u32_bytes(WINDOW_ACKNOWLEDGEMENT_SIZE as int) + seq![PEER_BANDWIDTH_LIMIT_TYPE],
    ) + message_chunk_bytes(COMMAND_CHUNK_STREAM_ID, COMMAND_AMF0_TYPE_ID, result)
}

/// Appends `payload` as one message of type `message_type_id` on chunk
/// stream `cs_id`, in a single chunk with a type 0 header.
pub fn write_message_chunk(out: &mut Vec<u8>, cs_id: u8, message_type_id: u8, payload: &[u8])
    requires
        2 <= cs_id <= 63,
        payload@.len() < 0x100_0000,
    ensures
        final(out)@ == old(out)@ + message_chunk_bytes(cs_id, message_type_id, payload@),
{
    let basic_header = BasicHeader1::new_from_values(0, cs_id);
    let message_header = MessageHeaderType0::new_from_values(
        0,
        payload.len() as u32,
        message_type_id,
        0,
    );
    append(out, basic_header.data.as_slice());
    append(out, message_header.data.as_slice());
    append(out, payload);
    assert(out@ =~= old(out)@ + message_chunk_bytes(cs_id, message_type_id, payload@));
}

/// The bytes that answer `connect`, around the AMF0-encoded reply `result`.
pub fn connect_response(result: &[u8]) -> (r: Vec<u8>)
    requires
        result@.len() < 0x100_0000,
    ensures
        r@ == connect_response_bytes(result@),
{
    let mut out: Vec<u8> = Vec::new();
    let window = AcknowledgementWindowSize::new(write_be_u32(WINDOW_ACKNOWLEDGEMENT_SIZE));
    write_message_chunk(
        &mut out,
        CONTROL_CHUNK_STREAM_ID,
        WINDOW_ACKNOWLEDGEMENT_SIZE_TYPE_ID,
        window.payload.as_slice(),
    );
    let bandwidth = SetPeerBandwidth::new_from_values(
        WINDOW_ACKNOWLEDGEMENT_SIZE,
        PEER_BANDWIDTH_LIMIT_TYPE,
    );
    write_message_chunk(
        &mut out,
        CONTROL_CHUNK_STREAM_ID,
        SET_PEER_BANDWIDTH_TYPE_ID,
        bandwidth.payload.as_slice(),
    );
    write_message_chunk(&mut out, COMMAND_CHUNK_STREAM_ID, COMMAND_AMF0_TYPE_ID, result);
    assert(out@ =~= connect_response_bytes(result@));
    out
}

} // verus!
