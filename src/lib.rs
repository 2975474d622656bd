//! Server side of the RTMP chunk-stream layer: the handshake, the chunk
//! header codecs, chunk decoding and the per-chunk-stream demultiplexer.

mod basic_header;
mod bytes;
mod chunk;
mod error;
mod handshake;
mod message;
mod message_header;
mod session;
mod utils;

pub use basic_header::{
    basic_header_bytes, basic_header_size, cs_id_of, fmt_of, lemma_basic_header_round_trip,
    BasicHeader, BasicHeader1, BasicHeader2, BasicHeader3,
};
pub use bytes::{be_u24, be_u24_bytes, be_u32, be_u32_bytes};
pub use error::RtmpError;
pub use message_header::{
    lemma_type0_round_trip, message_header_size, type0_bytes, MessageHeader, MessageHeaderType0, MessageHeaderType1,
    MessageHeaderType2, MessageHeaderType3,
};
pub use chunk::{chunk_extent, payload_size, Chunk};
pub use session::{
    after_chunk, lemma_compressed_inherits, lemma_other_streams_kept, lemma_unknown_stream_fails,
    message_kind, resolved_type, Demultiplexer, MessageKind, PrecedingChunkAttributes,
};
pub use handshake::{
    sends, takes_input, Handshake, HandshakeChunk0, HandshakeChunk1, HandshakeChunk2,
    HandshakePhase, HandshakeStep, HANDSHAKE_CHUNK_SIZE, RTMP_VERSION,
};
pub use utils::timestamp;
pub use message::{
    connect_response, connect_response_bytes, message_chunk_bytes, write_message_chunk,
    AcknowledgementWindowSize, CommandMessageAmf0, SetChunkSize, SetPeerBandwidth,
    UserControlMessage, COMMAND_AMF0_TYPE_ID, COMMAND_CHUNK_STREAM_ID, CONTROL_CHUNK_STREAM_ID,
    PEER_BANDWIDTH_LIMIT_TYPE, SET_PEER_BANDWIDTH_TYPE_ID, WINDOW_ACKNOWLEDGEMENT_SIZE,
    WINDOW_ACKNOWLEDGEMENT_SIZE_TYPE_ID,
};
