//! The chunk message header: four variants of 11, 7, 3 and 0 bytes, chosen
//! by the basic header's format id. Multi-byte fields are big-endian.

use vstd::prelude::*;

use crate::bytes::{
    append, be_u24, be_u24_bytes, be_u32, be_u32_bytes, lemma_be_u24_round_trip,
    lemma_be_u32_round_trip, read_be_u24, read_be_u32, write_be_u24, write_be_u32,
};
use crate::error::RtmpError;

verus! {

/// How many bytes the message header of format `fmt` takes.
pub open spec fn message_header_size(fmt: u8) -> int {
    if fmt == 0 {
        11
    } else if fmt == 1 {
        7
    } else if fmt == 2 {
        3
    } else {
        0
    }
}

/// The bytes of a type 0 header: timestamp, message length, message type
/// id and message stream id.
pub open spec fn type0_bytes(timestamp: int, message_length: int, message_type_id: u8, message_stream_id: int) -> Seq<u8> {
    be_u24_bytes(timestamp) + be_u24_bytes(message_length) + seq![message_type_id]
        + be_u32_bytes(message_stream_id)
}

/// A type 0 header written from its four fields reads back the same four
/// fields.
pub proof fn lemma_type0_round_trip(
    timestamp: int,
    message_length: int,
    message_type_id: u8,
    message_stream_id: int,
)
    requires
        0 <= timestamp < 0x100_0000,
        0 <= message_length < 0x100_0000,
        0 <= message_stream_id < 0x1_0000_0000,
    ensures
        ({
            let s = type0_bytes(timestamp, message_length, message_type_id, message_stream_id);
            &&& s.len() == 11
            &&& be_u24(s.subrange(0, 3)) == timestamp
            &&& be_u24(s.subrange(3, 6)) == message_length
            &&& s[6] == message_type_id
            &&& be_u32(s.subrange(7, 11)) == message_stream_id
        }),
{
    let s = type0_bytes(timestamp, message_length, message_type_id, message_stream_id);
    lemma_be_u24_round_trip(timestamp);
    lemma_be_u24_round_trip(message_length);
    lemma_be_u32_round_trip(message_stream_id);
    assert(s.subrange(0, 3) =~= be_u24_bytes(timestamp));
    assert(s.subrange(3, 6) =~= be_u24_bytes(message_length));
    assert(s.subrange(7, 11) =~= be_u32_bytes(message_stream_id));
}

/// Type 0: timestamp, message length, message type id and message stream id.
#[derive(Debug, Clone, Copy)]
pub struct MessageHeaderType0 {
    pub data: [u8; 11],
}

/// Type 1: timestamp delta, message length and message type id.
#[derive(Debug, Clone, Copy)]
pub struct MessageHeaderType1 {
    pub data: [u8; 7],
}

/// Type 2: timestamp delta only.
#[derive(Debug, Clone, Copy)]
pub struct MessageHeaderType2 {
    pub data: [u8; 3],
}

/// Type 3: no fields; all of them come from the chunk stream's earlier chunks.
#[derive(Debug, Clone, Copy)]
pub struct MessageHeaderType3 {
    pub data: [u8; 0],
}

impl MessageHeaderType0 {
    pub fn new(data: [u8; 11]) -> (r: Self)
        ensures
            r.data == data,
    {
        Self { data }
    }

    pub fn new_from_values(
        timestamp: u32,
        message_length: u32,
        message_type_id: u8,
        message_stream_id: u32,
    ) -> (r: Self)
        requires
            timestamp < 0x100_0000,
            message_length < 0x100_0000,
        ensures
            r.data@ == type0_bytes(
                timestamp as int,
                message_length as int,
                message_type_id,
                message_stream_id as int,
            ),
            MessageHeader::Type0(r).timestamp() == Some(timestamp),
            MessageHeader::Type0(r).message_length() == Some(message_length),
            MessageHeader::Type0(r).message_type_id() == Some(message_type_id),
            MessageHeader::Type0(r).message_stream_id() == Some(message_stream_id),
    {
        proof {
            lemma_type0_round_trip(
                timestamp as int,
                message_length as int,
                message_type_id,
                message_stream_id as int,
            );
        }
        let t = write_be_u24(timestamp);
        let l = write_be_u24(message_length);
        let s = write_be_u32(message_stream_id);
        let data = [t[0], t[1], t[2], l[0], l[1], l[2], message_type_id, s[0], s[1], s[2], s[3]];
        assert(data@ =~= type0_bytes(
            timestamp as int,
            message_length as int,
            message_type_id,
            message_stream_id as int,
        ));
        Self { data }
    }
}

impl MessageHeaderType1 {
    pub fn new(data: [u8; 7]) -> (r: Self)
        ensures
            r.data == data,
    {
        Self { data }
    }
}

impl MessageHeaderType2 {
    pub fn new(data: [u8; 3]) -> (r: Self)
        ensures
            r.data == data,
    {
        Self { data }
    }
}

impl MessageHeaderType3 {
    pub fn new(data: [u8; 0]) -> (r: Self)
        ensures
            r.data == data,
    {
        Self { data }
    }
}

/// A message header in whichever of its four variants. A field that the
/// variant does not carry reads as `None`, never as zero.
#[derive(Debug, Clone, Copy)]
pub enum MessageHeader {
    Type0(MessageHeaderType0),
    Type1(MessageHeaderType1),
    Type2(MessageHeaderType2),
    Type3(MessageHeaderType3),
}

impl MessageHeader {
    /// The format id that selects this variant.
    pub open spec fn fmt(self) -> u8 {
        match self {
            MessageHeader::Type0(_) => 0,
            MessageHeader::Type1(_) => 1,
            MessageHeader::Type2(_) => 2,
            MessageHeader::Type3(_) => 3,
        }
    }

    /// The header's bytes as they stand on the wire.
    pub open spec fn bytes(self) -> Seq<u8> {
        match self {
            MessageHeader::Type0(h) => h.data@,
            MessageHeader::Type1(h) => h.data@,
            MessageHeader::Type2(h) => h.data@,
            MessageHeader::Type3(h) => h.data@,
        }
    }

    pub open spec fn timestamp(self) -> Option<u32> {
        match self {
            MessageHeader::Type0(h) => Some(be_u24(h.data@.subrange(0, 3)) as u32),
            _ => None,
        }
    }

    pub open spec fn timestamp_delta(self) -> Option<u32> {
        match self {
            MessageHeader::Type1(h) => Some(be_u24(h.data@.subrange(0, 3)) as u32),
            MessageHeader::Type2(h) => Some(be_u24(h.data@.subrange(0, 3)) as u32),
            _ => None,
        }
    }

    pub open spec fn message_length(self) -> Option<u32> {
        match self {
            MessageHeader::Type0(h) => Some(be_u24(h.data@.subrange(3, 6)) as u32),
            MessageHeader::Type1(h) => Some(be_u24(h.data@.subrange(3, 6)) as u32),
            _ => None,
        }
    }

    pub open spec fn message_type_id(self) -> Option<u8> {
        match self {
            MessageHeader::Type0(h) => Some(h.data@[6]),
            MessageHeader::Type1(h) => Some(h.data@[6]),
            _ => None,
        }
    }

    pub open spec fn message_stream_id(self) -> Option<u32> {
        match self {
            MessageHeader::Type0(h) => Some(be_u32(h.data@.subrange(7, 11)) as u32),
            _ => None,
        }
    }

    pub fn get_timestamp(&self) -> (r: Option<u32>)
        ensures
            r == self.timestamp(),
    {
        match self {
            MessageHeader::Type0(h) => Some(read_be_u24(h.data.as_slice(), 0)),
            _ => None,
        }
    }

    pub fn get_timestamp_delta(&self) -> (r: Option<u32>)
        ensures
            r == self.timestamp_delta(),
    {
        match self {
            MessageHeader::Type1(h) => Some(read_be_u24(h.data.as_slice(), 0)),
            MessageHeader::Type2(h) => Some(read_be_u24(h.data.as_slice(), 0)),
            _ => None,
        }
    }

    pub fn get_message_length(&self) -> (r: Option<u32>)
        ensures
            r == self.message_length(),
    {
        match self {
            MessageHeader::Type0(h) => Some(read_be_u24(h.data.as_slice(), 3)),
            MessageHeader::Type1(h) => Some(read_be_u24(h.data.as_slice(), 3)),
            _ => None,
        }
    }

    pub fn get_message_type_id(&self) -> (r: Option<u8>)
        ensures
            r == self.message_type_id(),
    {
        match self {
            MessageHeader::Type0(h) => Some(h.data[6]),
            MessageHeader::Type1(h) => Some(h.data[6]),
            _ => None,
        }
    }

    pub fn get_message_stream_id(&self) -> (r: Option<u32>)
        ensures
            r == self.message_stream_id(),
    {
        match self {
            MessageHeader::Type0(h) => Some(read_be_u32(h.data.as_slice(), 7)),
            _ => None,
        }
    }

    /// How many bytes the message header of format `fmt` takes.
    pub fn size_for(fmt: u8) -> (r: usize)
        ensures
            r == message_header_size(fmt),
    {
        if fmt == 0 {
            11
        } else if fmt == 1 {
            7
        } else if fmt == 2 {
            3
        } else {
            0
        }
    }

    /// Reads the message header of format `fmt` from `b`, starting at `at`;
    /// fails with a short read where `b` ends before the header does.
    pub fn decode(fmt: u8, b: &[u8], at: usize) -> (r: Result<MessageHeader, RtmpError>)
        requires
            fmt < 4,
            at <= b@.len(),
        ensures
            match r {
                Ok(h) => {
                    &&& at + message_header_size(fmt) <= b@.len()
                    &&& h.fmt() == fmt
                    &&& h.bytes() == b@.subrange(at as int, at + message_header_size(fmt))
                },
                Err(e) => e == RtmpError::ShortRead && b@.len() < at + message_header_size(fmt),
            },
    {
        let left = b.len() - at;
        if fmt == 0 {
            if left < 11 {
                return Err(RtmpError::ShortRead);
            }
            let h = MessageHeaderType0::new(
                [
                    b[at],
                    b[at + 1],
                    b[at + 2],
                    b[at + 3],
                    b[at + 4],
                    b[at + 5],
                    b[at + 6],
                    b[at + 7],
                    b[at + 8],
                    b[at + 9],
                    b[at + 10],
                ],
            );
            assert(h.data@ =~= b@.subrange(at as int, at + 11));
            Ok(MessageHeader::Type0(h))
        } else if fmt == 1 {
            if left < 7 {
                return Err(RtmpError::ShortRead);
            }
            let h = MessageHeaderType1::new(
                [b[at], b[at + 1], b[at + 2], b[at + 3], b[at + 4], b[at + 5], b[at + 6]],
            );
            assert(h.data@ =~= b@.subrange(at as int, at + 7));
            Ok(MessageHeader::Type1(h))
        } else if fmt == 2 {
            if left < 3 {
                return Err(RtmpError::ShortRead);
            }
            let h = MessageHeaderType2::new([b[at], b[at + 1], b[at + 2]]);
            assert(h.data@ =~= b@.subrange(at as int, at + 3));
            Ok(MessageHeader::Type2(h))
        } else {
            let h = MessageHeaderType3::new([]);
            assert(h.data@ =~= b@.subrange(at as int, at as int));
            Ok(MessageHeader::Type3(h))
        }
    }

    /// Appends the header's bytes to `out`.
    pub fn write(&self, out: &mut Vec<u8>)
        ensures
            final(out)@ == old(out)@ + self.bytes(),
    {
        append(out, self.as_slice());
    }

    fn as_slice(&self) -> (r: &[u8])
        ensures
            r@ == self.bytes(),
    {
        match self {
            MessageHeader::Type0(h) => h.data.as_slice(),
            MessageHeader::Type1(h) => h.data.as_slice(),
            MessageHeader::Type2(h) => h.data.as_slice(),
            MessageHeader::Type3(h) => h.data.as_slice(),
        }
    }
}

} // verus!
