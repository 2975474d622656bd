//! The chunk basic header: a format id and a chunk stream id, in one, two
//! or three bytes.

use vstd::prelude::*;

use crate::error::RtmpError;

verus! {

/// How many bytes a basic header takes, by its first byte: the low six bits
/// are 0 for the two-byte form, 1 for the three-byte form, and the chunk
/// stream id itself otherwise.
pub open spec fn basic_header_size(b0: u8) -> int {
    if b0 % 64 == 0 {
        2
    } else if b0 % 64 == 1 {
        3
    } else {
        1
    }
}

/// The format id: the top two bits of the first byte.
pub open spec fn fmt_of(b0: u8) -> u8 {
    b0 / 64
}

/// The chunk stream id that the header bytes `s` carry.
pub open spec fn cs_id_of(s: Seq<u8>) -> int {
    if s[0] % 64 == 0 {
        s[1] as int + 64
    } else if s[0] % 64 == 1 {
        s[2] as int * 256 + s[1] as int + 64
    } else {
        (s[0] % 64) as int
    }
}

/// The bytes of the basic header for `fmt` and `cs_id`: the one-byte form
/// for ids up to 63, the two-byte form up to 319, the three-byte form above.
pub open spec fn basic_header_bytes(fmt: u8, cs_id: int) -> Seq<u8> {
    if cs_id <= 63 {
        seq![(fmt * 64 + cs_id) as u8]
    } else if cs_id <= 319 {
        seq![(fmt * 64) as u8, (cs_id - 64) as u8]
    } else {
        seq![(fmt * 64 + 1) as u8, ((cs_id - 64) % 256) as u8, ((cs_id - 64) / 256) as u8]
    }
}

/// Encoding a basic header and decoding its bytes gives back the format id
/// and the chunk stream id, in one byte for ids 2 to 63, two bytes for 64 to
/// 319 and three bytes for 320 to 65599.
pub proof fn lemma_basic_header_round_trip(fmt: u8, cs_id: int)
    requires
        fmt < 4,
        2 <= cs_id <= 65599,
    ensures
        ({
            let s = basic_header_bytes(fmt, cs_id);
            &&& s.len() == basic_header_size(s[0])
            &&& fmt_of(s[0]) == fmt
            &&& cs_id_of(s) == cs_id
            &&& s.len() == (if cs_id <= 63 {
                1int
            } else if cs_id <= 319 {
                2int
            } else {
                3int
            })
        }),
{
}

/// The one-byte form, for chunk stream ids 2 to 63.
#[derive(Debug, Clone, Copy)]
pub struct BasicHeader1 {
    pub data: [u8; 1],
}

/// The two-byte form, for chunk stream ids 64 to 319.
#[derive(Debug, Clone, Copy)]
pub struct BasicHeader2 {
    pub data: [u8; 2],
}

/// The three-byte form, for chunk stream ids 64 to 65599.
#[derive(Debug, Clone, Copy)]
pub struct BasicHeader3 {
    pub data: [u8; 3],
}

proof fn lemma_fmt_bits(b: u8)
    ensures
        (b >> 6u8) & 3u8 == b / 64,
        b & 0x3fu8 == b % 64,
{
    assert((b >> 6u8) & 3u8 == b / 64) by (bit_vector);
    assert(b & 0x3fu8 == b % 64) by (bit_vector);
}

impl BasicHeader1 {
    pub fn new(data: [u8; 1]) -> (r: Self)
        requires
            data@[0] % 64 >= 2,
        ensures
            r.data == data,
    {
        Self { data }
    }

    pub fn new_from_values(fmt: u8, cs_id: u8) -> (r: Self)
        requires
            fmt < 4,
            2 <= cs_id <= 63,
        ensures
            r.data@ == basic_header_bytes(fmt, cs_id as int),
    {
        let b: u8 = fmt << 6u8 | (cs_id & 0b00111111u8);
        assert(b == fmt * 64 + cs_id) by (bit_vector)
            requires
                b == fmt << 6u8 | (cs_id & 0b00111111u8),
                fmt < 4,
                cs_id < 64,
        ;
        let r = Self { data: [b] };
        assert(r.data@ =~= basic_header_bytes(fmt, cs_id as int));
        r
    }

    pub fn get_fmt(&self) -> (r: u8)
        ensures
            r == fmt_of(self.data@[0]),
    {
        proof {
            lemma_fmt_bits(self.data@[0]);
        }
        self.data[0] >> 6u8 & 0b11u8
    }

    pub fn get_cs_id(&self) -> (r: u32)
        ensures
            r == self.data@[0] % 64,
    {
        proof {
            lemma_fmt_bits(self.data@[0]);
        }
        (self.data[0] & 0b00111111u8) as u32
    }
}

impl BasicHeader2 {
    pub fn new(data: [u8; 2]) -> (r: Self)
        requires
            data@[0] % 64 == 0,
        ensures
            r.data == data,
    {
        Self { data }
    }

    pub fn get_fmt(&self) -> (r: u8)
        ensures
            r == fmt_of(self.data@[0]),
    {
        proof {
            lemma_fmt_bits(self.data@[0]);
        }
        self.data[0] >> 6u8 & 0b11u8
    }

    pub fn get_cs_id(&self) -> (r: u32)
        ensures
            r == self.data@[1] + 64,
    {
        self.data[1] as u32 + 64
    }
}

impl BasicHeader3 {
    pub fn new(data: [u8; 3]) -> (r: Self)
        requires
            data@[0] % 64 == 1,
        ensures
            r.data == data,
    {
        Self { data }
    }

    pub fn get_fmt(&self) -> (r: u8)
        ensures
            r == fmt_of(self.data@[0]),
    {
        proof {
            lemma_fmt_bits(self.data@[0]);
        }
        self.data[0] >> 6u8 & 0b11u8
    }

    pub fn get_cs_id(&self) -> (r: u32)
        ensures
            r == self.data@[2] as int * 256 + self.data@[1] as int + 64,
    {
        self.data[2] as u32 * 256 + self.data[1] as u32 + 64
    }
}

/// A basic header in whichever of its three forms.
#[derive(Debug, Clone, Copy)]
pub enum BasicHeader {
    One(BasicHeader1),
    Two(BasicHeader2),
    Three(BasicHeader3),
}

impl BasicHeader {
    /// The header's bytes as they stand on the wire.
    pub open spec fn bytes(self) -> Seq<u8> {
        match self {
            BasicHeader::One(h) => h.data@,
            BasicHeader::Two(h) => h.data@,
            BasicHeader::Three(h) => h.data@,
        }
    }

    /// The form agrees with the low six bits of the first byte.
    pub open spec fn wf(self) -> bool {
        self.bytes().len() == basic_header_size(self.bytes()[0])
    }

    pub open spec fn fmt(self) -> u8 {
        fmt_of(self.bytes()[0])
    }

    pub open spec fn cs_id(self) -> int {
        cs_id_of(self.bytes())
    }

    pub fn get_fmt(&self) -> (r: u8)
        ensures
            r == self.fmt(),
    {
        match self {
            BasicHeader::One(h) => h.get_fmt(),
            BasicHeader::Two(h) => h.get_fmt(),
            BasicHeader::Three(h) => h.get_fmt(),
        }
    }

    pub fn get_cs_id(&self) -> (r: u32)
        requires
            self.wf(),
        ensures
            r == self.cs_id(),
    {
        match self {
            BasicHeader::One(h) => h.get_cs_id(),
            BasicHeader::Two(h) => h.get_cs_id(),
            BasicHeader::Three(h) => h.get_cs_id(),
        }
    }

    /// How many bytes the header takes on the wire.
    pub fn size(&self) -> (r: usize)
        ensures
            r == self.bytes().len(),
    {
        match self {
            BasicHeader::One(_) => 1,
            BasicHeader::Two(_) => 2,
            BasicHeader::Three(_) => 3,
        }
    }

    /// How many bytes a basic header with first byte `first` takes.
    pub fn size_for(first: u8) -> (r: usize)
        ensures
            r == basic_header_size(first),
    {
        proof {
            lemma_fmt_bits(first);
        }
        let low = first & 0b00111111u8;
        if low == 0 {
            2
        } else if low == 1 {
            3
        } else {
            1
        }
    }

    /// Reads a basic header from the front of `b`; fails with a short read
    /// where `b` ends before the header does.
    pub fn decode(b: &[u8]) -> (r: Result<BasicHeader, RtmpError>)
        ensures
            match r {
                Ok(h) => {
                    &&& b@.len() >= 1
                    &&& b@.len() >= basic_header_size(b@[0])
                    &&& h.wf()
                    &&& h.bytes() == b@.subrange(0, basic_header_size(b@[0]))
                },
                Err(e) => {
                    &&& e == RtmpError::ShortRead
                    &&& (b@.len() == 0 || b@.len() < basic_header_size(b@[0]))
                },
            },
    {
        if b.len() == 0 {
            return Err(RtmpError::ShortRead);
        }
        let b0 = b[0];
        proof {
            lemma_fmt_bits(b0);
        }
        let low = b0 & 0b00111111u8;
        if low == 0 {
            if b.len() < 2 {
                return Err(RtmpError::ShortRead);
            }
            let h = BasicHeader2::new([b0, b[1]]);
            assert(h.data@ =~= b@.subrange(0, 2));
            Ok(BasicHeader::Two(h))
        } else if low == 1 {
            if b.len() < 3 {
                return Err(RtmpError::ShortRead);
            }
            let h = BasicHeader3::new([b0, b[1], b[2]]);
            assert(h.data@ =~= b@.subrange(0, 3));
            Ok(BasicHeader::Three(h))
        } else {
            let h = BasicHeader1::new([b0]);
            assert(h.data@ =~= b@.subrange(0, 1));
            Ok(BasicHeader::One(h))
        }
    }

    /// The header for `fmt` and `cs_id`, in the shortest form that holds the id.
    pub fn from_values(fmt: u8, cs_id: u32) -> (r: BasicHeader)
        requires
            fmt < 4,
            2 <= cs_id <= 65599,
        ensures
            r.wf(),
            r.bytes() == basic_header_bytes(fmt, cs_id as int),
    {
        proof {
            lemma_basic_header_round_trip(fmt, cs_id as int);
        }
        if cs_id <= 63 {
            let h = BasicHeader1::new([fmt * 64 + cs_id as u8]);
            assert(h.data@ =~= basic_header_bytes(fmt, cs_id as int));
            BasicHeader::One(h)
        } else if cs_id <= 319 {
            let h = BasicHeader2::new([fmt * 64, (cs_id - 64) as u8]);
            assert(h.data@ =~= basic_header_bytes(fmt, cs_id as int));
            BasicHeader::Two(h)
        } else {
            let rest = cs_id - 64;
            let h = BasicHeader3::new([fmt * 64 + 1, (rest % 256) as u8, (rest / 256) as u8]);
            assert(h.data@ =~= basic_header_bytes(fmt, cs_id as int));
            BasicHeader::Three(h)
        }
    }

    /// Appends the header's bytes to `out`.
    pub fn write(&self, out: &mut Vec<u8>)
        ensures
            final(out)@ == old(out)@ + self.bytes(),
    {
        match self {
            BasicHeader::One(h) => {
                out.push(h.data[0]);
            },
            BasicHeader::Two(h) => {
                out.push(h.data[0]);
                out.push(h.data[1]);
            },
            BasicHeader::Three(h) => {
                out.push(h.data[0]);
                out.push(h.data[1]);
                out.push(h.data[2]);
            },
        }
        assert(out@ =~= old(out)@ + self.bytes());
    }
}

} // verus!
