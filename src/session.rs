//! Per-connection chunk-stream state: the message type id last seen on each
//! chunk stream, which compressed headers (fmt 2 and 3) inherit, and the
//! routing of resolved messages by type id.

use std::collections::HashMap;
use vstd::prelude::*;

use crate::chunk::Chunk;
use crate::error::RtmpError;

verus! {

/// What a chunk stream remembers of its latest chunk.
#[derive(Debug, Clone, Copy, PartialEq, Eq, Structural)]
pub struct PrecedingChunkAttributes {
    pub message_type_id: u8,
}

/// The message type id of a chunk with format id `fmt` on chunk stream
/// `cs_id`, whose message header carries `header_type_id`: formats 0 and 1
/// carry it, formats 2 and 3 inherit it from the stream's earlier chunks.
pub open spec fn resolved_type(
    streams: Map<u32, PrecedingChunkAttributes>,
    fmt: u8,
    cs_id: u32,
    header_type_id: Option<u8>,
) -> Result<u8, RtmpError> {
    if fmt <= 1 {
        Ok(header_type_id.unwrap())
    } else if streams.contains_key(cs_id) {
        Ok(streams[cs_id].message_type_id)
    } else {
        Err(RtmpError::UnknownChunkStream(cs_id))
    }
}

/// The chunk-stream table after such a chunk: its stream now remembers the
/// resolved type id; a chunk that cannot be resolved changes nothing.
pub open spec fn after_chunk(
    streams: Map<u32, PrecedingChunkAttributes>,
    fmt: u8,
    cs_id: u32,
    header_type_id: Option<u8>,
) -> Map<u32, PrecedingChunkAttributes> {
    match resolved_type(streams, fmt, cs_id, header_type_id) {
        Ok(t) => streams.insert(cs_id, PrecedingChunkAttributes { message_type_id: t }),
        Err(_) => streams,
    }
}

/// A compressed chunk (fmt 2 or 3) on a chunk stream that no earlier chunk
/// opened fails, and names that stream.
pub proof fn lemma_unknown_stream_fails(
    streams: Map<u32, PrecedingChunkAttributes>,
    fmt: u8,
    cs_id: u32,
    header_type_id: Option<u8>,
)
    requires
        2 <= fmt <= 3,
        !streams.contains_key(cs_id),
    ensures
        resolved_type(streams, fmt, cs_id, header_type_id) == Err::<u8, RtmpError>(
            RtmpError::UnknownChunkStream(cs_id),
        ),
        after_chunk(streams, fmt, cs_id, header_type_id) == streams,
{
}

/// A compressed chunk (fmt 2 or 3) right after a chunk of format 0 or 1 on
/// the same chunk stream resolves to that chunk's message type id.
pub proof fn lemma_compressed_inherits(
    streams: Map<u32, PrecedingChunkAttributes>,
    first_fmt: u8,
    cs_id: u32,
    message_type_id: u8,
    next_fmt: u8,
    next_header_type_id: Option<u8>,
)
    requires
        first_fmt <= 1,
        2 <= next_fmt <= 3,
    ensures
        resolved_type(
            after_chunk(streams, first_fmt, cs_id, Some(message_type_id)),
            next_fmt,
            cs_id,
            next_header_type_id,
        ) == Ok::<u8, RtmpError>(message_type_id),
{
}

/// A chunk on one chunk stream leaves what every other chunk stream
/// remembers as it was, so streams may interleave freely.
pub proof fn lemma_other_streams_kept(
    streams: Map<u32, PrecedingChunkAttributes>,
    fmt: u8,
    cs_id: u32,
    header_type_id: Option<u8>,
    other: u32,
)
    requires
        other != cs_id,
    ensures
        after_chunk(streams, fmt, cs_id, header_type_id).contains_key(other)
            == streams.contains_key(other),
        streams.contains_key(other) ==> after_chunk(streams, fmt, cs_id, header_type_id)[other]
            == streams[other],
{
}

/// The chunk-stream table of one connection.
#[derive(Debug)]
pub struct Demultiplexer {
    preceding: HashMap<u32, PrecedingChunkAttributes>,
}

impl View for Demultiplexer {
    type V = Map<u32, PrecedingChunkAttributes>;

    closed spec fn view(&self) -> Map<u32, PrecedingChunkAttributes> {
        self.preceding@
    }
}

impl Demultiplexer {
    pub fn new() -> (r: Self)
        ensures
            r@ == Map::<u32, PrecedingChunkAttributes>::empty(),
    {
        Demultiplexer { preceding: HashMap::new() }
    }

    /// The message type id that chunk stream `cs_id` last carried.
    pub fn last_message_type_id(&self, cs_id: u32) -> (r: Option<u8>)
        ensures
            r == (if self@.contains_key(cs_id) {
                Some(self@[cs_id].message_type_id)
            } else {
                None
            }),
    {
        match self.preceding.get(&cs_id) {
            Some(a) => Some(a.message_type_id),
            None => None,
        }
    }

    /// Resolves the message type id of `chunk` and records it for the
    /// chunk's stream.
    pub fn resolve(&mut self, chunk: &Chunk) -> (r: Result<u8, RtmpError>)
        requires
            chunk.wf(),
        ensures
            r == resolved_type(
                old(self)@,
                chunk.basic_header.fmt(),
                chunk.basic_header.cs_id() as u32,
                chunk.message_header.message_type_id(),
            ),
            final(self)@ == after_chunk(
                old(self)@,
                chunk.basic_header.fmt(),
                chunk.basic_header.cs_id() as u32,
                chunk.message_header.message_type_id(),
            ),
    {
        let fmt = chunk.basic_header.get_fmt();
        let cs_id = chunk.basic_header.get_cs_id();
        let message_type_id = if fmt <= 1 {
            chunk.message_header.get_message_type_id().unwrap()
        } else {
            match self.preceding.get(&cs_id) {
                Some(a) => a.message_type_id,
                None => {
                    return Err(RtmpError::UnknownChunkStream(cs_id));
                },
            }
        };
        self.preceding.insert(cs_id, PrecedingChunkAttributes { message_type_id });
        Ok(message_type_id)
    }
}

/// What a message is, by its type id.
#[derive(Debug, Clone, Copy, PartialEq, Eq, Structural)]
pub enum MessageKind {
    SetChunkSize,
    Abort,
    Acknowledgement,
    UserControl,
    WindowAcknowledgementSize,
    SetPeerBandwidth,
    Audio,
    Video,
    DataAmf3,
    SharedObjectAmf3,
    CommandAmf3,
    DataAmf0,
    SharedObjectAmf0,
    CommandAmf0,
    Aggregate,
    Unknown,
}

/// The kind of message that type id `id` stands for.
pub open spec fn message_kind(id: u8) -> MessageKind {
    match id {
        1 => MessageKind::SetChunkSize,
        2 => MessageKind::Abort,
        3 => MessageKind::Acknowledgement,
        4 => MessageKind::UserControl,
        5 => MessageKind::WindowAcknowledgementSize,
        6 => MessageKind::SetPeerBandwidth,
        8 => MessageKind::Audio,
        9 => MessageKind::Video,
        15 => MessageKind::DataAmf3,
        16 => MessageKind::SharedObjectAmf3,
        17 => MessageKind::CommandAmf3,
        18 => MessageKind::DataAmf0,
        19 => MessageKind::SharedObjectAmf0,
        20 => MessageKind::CommandAmf0,
        22 => MessageKind::Aggregate,
        _ => MessageKind::Unknown,
    }
}

impl MessageKind {
    pub fn from_type_id(id: u8) -> (r: MessageKind)
        ensures
            r == message_kind(id),
    {
        match id {
            1 => MessageKind::SetChunkSize,
            2 => MessageKind::Abort,
            3 => MessageKind::Acknowledgement,
            4 => MessageKind::UserControl,
            5 => MessageKind::WindowAcknowledgementSize,
            6 => MessageKind::SetPeerBandwidth,
            8 => MessageKind::Audio,
            9 => MessageKind::Video,
            15 => MessageKind::DataAmf3,
            16 => MessageKind::SharedObjectAmf3,
            17 => MessageKind::CommandAmf3,
            18 => MessageKind::DataAmf0,
            19 => MessageKind::SharedObjectAmf0,
            20 => MessageKind::CommandAmf0,
            22 => MessageKind::Aggregate,
            _ => MessageKind::Unknown,
        }
    }
}

} // verus!
