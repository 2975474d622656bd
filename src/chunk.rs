//! One chunk: basic header, message header and the payload that the
//! message length announces.

use vstd::prelude::*;

use crate::basic_header::{basic_header_size, fmt_of, BasicHeader};
use crate::bytes::{append, be_u24};
use crate::error::RtmpError;
use crate::message_header::{message_header_size, MessageHeader};

verus! {

/// How many payload bytes follow a message header: its message length where
/// it has one, else none.
pub open spec fn payload_size(h: MessageHeader) -> int {
    match h.message_length() {
        Some(n) => n as int,
        None => 0,
    }
}

/// The length of the chunk at the front of `s`, or `None` where `s` ends
/// before that chunk does.
pub open spec fn chunk_extent(s: Seq<u8>) -> Option<int> {
    if s.len() == 0 {
        None
    } else {
        let b = basic_header_size(s[0]);
        let fmt = fmt_of(s[0]);
        let m = message_header_size(fmt);
        if s.len() < b + m {
            None
        } else {
            let p = if fmt <= 1 {
                be_u24(s.subrange(b + 3, b + 6))
            } else {
                0
            };
            if s.len() < b + m + p {
                None
            } else {
                Some(b + m + p)
            }
        }
    }
}

#[derive(Debug)]
pub struct Chunk {
    pub basic_header: BasicHeader,
    pub message_header: MessageHeader,
    pub chunk_data: Vec<u8>,
}

impl Chunk {
    /// The message header is the variant that the format id selects, and the
    /// payload is as long as the message length, or empty without one.
    pub open spec fn wf(&self) -> bool {
        &&& self.basic_header.wf()
        &&& self.message_header.fmt() == self.basic_header.fmt()
        &&& self.chunk_data@.len() == payload_size(self.message_header)
    }

    /// The chunk's bytes as they stand on the wire.
    pub open spec fn bytes(&self) -> Seq<u8> {
        self.basic_header.bytes() + self.message_header.bytes() + self.chunk_data@
    }

    pub fn new(
        basic_header: BasicHeader,
        message_header: MessageHeader,
        chunk_data: Vec<u8>,
    ) -> (r: Self)
        ensures
            r.basic_header == basic_header,
            r.message_header == message_header,
            r.chunk_data == chunk_data,
    {
        Self { basic_header, message_header, chunk_data }
    }

    /// Reads the chunk at the front of `b`, with the number of bytes it
    /// takes; fails with a short read where `b` ends before the chunk does.
    pub fn decode(b: &[u8]) -> (r: Result<(Chunk, usize), RtmpError>)
        ensures
            match r {
                Ok((c, n)) => {
                    let h = basic_header_size(b@[0]);
                    let m = message_header_size(fmt_of(b@[0]));
                    &&& chunk_extent(b@) == Some(n as int)
                    &&& c.wf()
                    &&& c.basic_header.bytes() == b@.subrange(0, h)
                    &&& c.message_header.bytes() == b@.subrange(h, h + m)
                    &&& c.chunk_data@ == b@.subrange(h + m, n as int)
                    &&& c.bytes() == b@.subrange(0, n as int)
                },
                Err(e) => e == RtmpError::ShortRead && chunk_extent(b@) is None,
            },
    {
        let basic_header = match BasicHeader::decode(b) {
            Ok(h) => h,
            Err(e) => {
                return Err(e);
            },
        };
        let fmt = basic_header.get_fmt();
        let start = basic_header.size();
        let message_header = match MessageHeader::decode(fmt, b, start) {
            Ok(h) => h,
            Err(e) => {
                return Err(e);
            },
        };
        let ghost m = message_header_size(fmt);
        proof {
            if fmt <= 1 {
                assert(message_header.bytes() == b@.subrange(start as int, start + m));
                assert(message_header.bytes().subrange(3, 6) =~= b@.subrange(start + 3, start + 6));
            }
        }
        let first = start + MessageHeader::size_for(fmt);
        let length: usize = match message_header.get_message_length() {
            Some(n) => n as usize,
            None => 0,
        };
        if b.len() - first < length {
            return Err(RtmpError::ShortRead);
        }
        let end = first + length;
        let mut chunk_data: Vec<u8> = Vec::new();
        let mut i: usize = first;
        while i < end
            invariant
                first <= i <= end <= b@.len(),
                end == first + length,
                chunk_data@ == b@.subrange(first as int, i as int),
            decreases end - i,
        {
            chunk_data.push(b[i]);
            i = i + 1;
            assert(chunk_data@ =~= b@.subrange(first as int, i as int));
        }
        let chunk = Chunk { basic_header, message_header, chunk_data };
        assert(chunk.bytes() =~= b@.subrange(0, end as int));
        Ok((chunk, end))
    }

    /// Appends the chunk's bytes to `out`.
    pub fn write(&self, out: &mut Vec<u8>)
        ensures
            final(out)@ == old(out)@ + self.bytes(),
    {
        self.basic_header.write(out);
        self.message_header.write(out);
        append(out, self.chunk_data.as_slice());
        assert(out@ =~= old(out)@ + self.bytes());
    }
}

} // verus!
