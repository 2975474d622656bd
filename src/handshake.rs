//! The server side of the handshake: C0, C1 and C2 come in; S0, S1 and S2
//! go out, strictly in turn.

use vstd::prelude::*;

use crate::bytes::{append, array_at, be_u32_bytes, write_be_u32};
use crate::error::RtmpError;
use crate::utils::timestamp;

verus! {

/// The protocol version that the server always answers with.
pub const RTMP_VERSION: u8 = 3;

/// The size of C1, C2, S1 and S2 on the wire.
pub const HANDSHAKE_CHUNK_SIZE: usize = 1536;

/// Relies on rand's `random`: a byte from the thread-local generator. Its
/// value is left open.
#[verifier::external_body]
fn random_byte() -> u8 {
    rand::random::<u8>()
}

/// C0 or S0: the protocol version.
#[derive(Debug, Clone, Copy)]
pub struct HandshakeChunk0 {
    pub version: [u8; 1],
}

impl HandshakeChunk0 {
    pub fn new() -> (r: Self)
        ensures
            r.version@ == seq![0u8],
    {
        let r = Self { version: [0u8] };
        assert(r.version@ =~= seq![0u8]);
        r
    }

    /// Takes the version from the one byte of `bytes`.
    pub fn read(&mut self, bytes: &[u8])
        requires
            bytes@.len() == 1,
        ensures
            final(self).version@ == bytes@,
    {
        self.version = array_at::<1>(bytes, 0);
        assert(bytes@.subrange(0, 1) =~= bytes@);
    }

    pub fn set_version(&mut self, version: u8)
        ensures
            final(self).version@ == seq![version],
    {
        self.version = [version];
        assert(self.version@ =~= seq![version]);
    }

    /// Appends the chunk's byte to `out`.
    pub fn write(&self, out: &mut Vec<u8>)
        ensures
            final(out)@ == old(out)@ + self.version@,
    {
        append(out, self.version.as_slice());
    }
}

/// C1 or S1: a time, four zero bytes and a random block.
#[derive(Debug, Clone, Copy)]
pub struct HandshakeChunk1 {
    pub time: [u8; 4],
    pub zero: [u8; 4],
    pub random_data: [u8; 1528],
}

impl HandshakeChunk1 {
    /// The chunk's bytes as they stand on the wire.
    pub open spec fn bytes(&self) -> Seq<u8> {
        self.time@ + self.zero@ + self.random_data@
    }

    pub fn new() -> (r: Self)
        ensures
            r.bytes() == Seq::new(1536, |i: int| 0u8),
    {
        let r = Self { time: [0u8; 4], zero: [0u8; 4], random_data: [0u8; 1528] };
        assert(r.bytes() =~= Seq::new(1536, |i: int| 0u8));
        r
    }

    /// Takes the chunk from the 1536 bytes of `bytes`.
    pub fn read(&mut self, bytes: &[u8])
        requires
            bytes@.len() == HANDSHAKE_CHUNK_SIZE,
        ensures
            final(self).bytes() == bytes@,
    {
        self.time = array_at::<4>(bytes, 0);
        self.zero = array_at::<4>(bytes, 4);
        self.random_data = array_at::<1528>(bytes, 8);
        assert(self.bytes() =~= bytes@);
    }

    /// Appends the chunk's bytes to `out`.
    pub fn write(&self, out: &mut Vec<u8>)
        ensures
            final(out)@ == old(out)@ + self.bytes(),
    {
        append(out, self.time.as_slice());
        append(out, self.zero.as_slice());
        append(out, self.random_data.as_slice());
        assert(out@ =~= old(out)@ + self.bytes());
    }

    /// Stamps the chunk with the clock reading `elapsed_millis`, in
    /// milliseconds since the Unix epoch.
    pub fn set_time(&mut self, elapsed_millis: u128)
        ensures
            final(self).time@ == be_u32_bytes(elapsed_millis as int % 0x1_0000_0000),
            final(self).zero == old(self).zero,
            final(self).random_data == old(self).random_data,
    {
        let timestamp = timestamp(elapsed_millis);
        self.time = write_be_u32(timestamp);
    }

    pub fn set_zero(&mut self)
        ensures
            final(self).zero@ == seq![0u8, 0u8, 0u8, 0u8],
            final(self).time == old(self).time,
            final(self).random_data == old(self).random_data,
    {
        self.zero = [0u8; 4];
        assert(self.zero@ =~= seq![0u8, 0u8, 0u8, 0u8]);
    }

    /// Fills the random block with fresh random bytes.
    pub fn set_random_data(&mut self)
        ensures
            final(self).time == old(self).time,
            final(self).zero == old(self).zero,
    {
        let mut i: usize = 0;
        while i < 1528
            invariant
                i <= 1528,
                self.time == old(self).time,
                self.zero == old(self).zero,
            decreases 1528 - i,
        {
            self.random_data[i] = random_byte();
            i = i + 1;
        }
    }

    /// Makes the chunk ready to send as S1: the time, the zero field and a
    /// fresh random block.
    pub fn prepare(&mut self, elapsed_millis: u128)
        ensures
            final(self).time@ == be_u32_bytes(elapsed_millis as int % 0x1_0000_0000),
            final(self).zero@ == seq![0u8, 0u8, 0u8, 0u8],
    {
        self.set_time(elapsed_millis);
        self.set_zero();
        self.set_random_data();
    }
}

/// C2 or S2: the peer's time, a second time and the echo of the peer's
/// random block.
#[derive(Debug, Clone, Copy)]
pub struct HandshakeChunk2 {
    pub time: [u8; 4],
    pub time_2: [u8; 4],
    pub random_echo: [u8; 1528],
}

impl HandshakeChunk2 {
    /// The chunk's bytes as they stand on the wire.
    pub open spec fn bytes(&self) -> Seq<u8> {
        self.time@ + self.time_2@ + self.random_echo@
    }

    pub fn new() -> (r: Self)
        ensures
            r.bytes() == Seq::new(1536, |i: int| 0u8),
    {
        let r = Self { time: [0u8; 4], time_2: [0u8; 4], random_echo: [0u8; 1528] };
        assert(r.bytes() =~= Seq::new(1536, |i: int| 0u8));
        r
    }

    /// Takes the chunk from the 1536 bytes of `bytes`.
    pub fn read(&mut self, bytes: &[u8])
        requires
            bytes@.len() == HANDSHAKE_CHUNK_SIZE,
        ensures
            final(self).bytes() == bytes@,
    {
        self.time = array_at::<4>(bytes, 0);
        self.time_2 = array_at::<4>(bytes, 4);
        self.random_echo = array_at::<1528>(bytes, 8);
        assert(self.bytes() =~= bytes@);
    }

    /// Appends the chunk's bytes to `out`.
    pub fn write(&self, out: &mut Vec<u8>)
        ensures
            final(out)@ == old(out)@ + self.bytes(),
    {
        append(out, self.time.as_slice());
        append(out, self.time_2.as_slice());
        append(out, self.random_echo.as_slice());
        assert(out@ =~= old(out)@ + self.bytes());
    }

    pub fn set_time(&mut self, time: [u8; 4])
        ensures
            final(self).time == time,
            final(self).time_2 == old(self).time_2,
            final(self).random_echo == old(self).random_echo,
    {
        self.time = time;
    }

    pub fn set_time_2(&mut self, time: u32)
        ensures
            final(self).time_2@ == be_u32_bytes(time as int),
            final(self).time == old(self).time,
            final(self).random_echo == old(self).random_echo,
    {
        self.time_2 = write_be_u32(time);
    }

    pub fn set_random_echo(&mut self, random_echo: [u8; 1528])
        ensures
            final(self).random_echo == random_echo,
            final(self).time == old(self).time,
            final(self).time_2 == old(self).time_2,
    {
        self.random_echo = random_echo;
    }
}

/// Where the handshake stands.
#[derive(Debug, Clone, Copy, PartialEq, Eq, Structural)]
pub enum HandshakePhase {
    AwaitC0,
    SendS0,
    SendS1,
    AwaitC1,
    SendS2,
    AwaitC2,
    Done,
}

/// What the connection has to do next for the handshake.
#[derive(Debug)]
pub enum HandshakeStep {
    /// Read exactly this many bytes and hand them to `Handshake::on_read`.
    Read(usize),
    /// Write these bytes, flush, and report it with `Handshake::on_written`.
    Write(Vec<u8>),
    /// The handshake is complete; chunks follow.
    Finished,
}

/// Whether bytes of length `len` are what `phase` waits for.
pub open spec fn takes_input(phase: HandshakePhase, len: int) -> bool {
    ||| phase == HandshakePhase::AwaitC0 && len == 1
    ||| phase == HandshakePhase::AwaitC1 && len == 1536
    ||| phase == HandshakePhase::AwaitC2 && len == 1536
}

/// Whether `phase` is one in which the server sends.
pub open spec fn sends(phase: HandshakePhase) -> bool {
    ||| phase == HandshakePhase::SendS0
    ||| phase == HandshakePhase::SendS1
    ||| phase == HandshakePhase::SendS2
}

/// The six handshake chunks of one connection and the phase it is in.
#[derive(Debug)]
pub struct Handshake {
    pub c0: HandshakeChunk0,
    pub c1: HandshakeChunk1,
    pub c2: HandshakeChunk2,
    pub s0: HandshakeChunk0,
    pub s1: HandshakeChunk1,
    pub s2: HandshakeChunk2,
    pub phase: HandshakePhase,
}

impl Handshake {
    pub fn new() -> (r: Self)
        ensures
            r.phase == HandshakePhase::AwaitC0,
            r.c0.version@ == seq![0u8],
            r.s0.version@ == seq![0u8],
            r.c1.bytes() == Seq::new(1536, |i: int| 0u8),
            r.s1.bytes() == Seq::new(1536, |i: int| 0u8),
            r.c2.bytes() == Seq::new(1536, |i: int| 0u8),
            r.s2.bytes() == Seq::new(1536, |i: int| 0u8),
    {
        Self {
            c0: HandshakeChunk0::new(),
            c1: HandshakeChunk1::new(),
            c2: HandshakeChunk2::new(),
            s0: HandshakeChunk0::new(),
            s1: HandshakeChunk1::new(),
            s2: HandshakeChunk2::new(),
            phase: HandshakePhase::AwaitC0,
        }
    }

    /// What the connection does next: read C0 (one byte) or C1 and C2
    /// (1536 bytes each), write S0, S1 or S2, or nothing once done.
    pub fn next_step(&self) -> (r: HandshakeStep)
        ensures
            match self.phase {
                HandshakePhase::AwaitC0 => r == HandshakeStep::Read(1),
                HandshakePhase::AwaitC1 => r == HandshakeStep::Read(1536),
                HandshakePhase::AwaitC2 => r == HandshakeStep::Read(1536),
                HandshakePhase::SendS0 => r is Write && r->Write_0@ == self.s0.version@,
                HandshakePhase::SendS1 => r is Write && r->Write_0@ == self.s1.bytes(),
                HandshakePhase::SendS2 => r is Write && r->Write_0@ == self.s2.bytes(),
                HandshakePhase::Done => r is Finished,
            },
    {
        let mut out: Vec<u8> = Vec::new();
        match self.phase {
            HandshakePhase::AwaitC0 => HandshakeStep::Read(1),
            HandshakePhase::AwaitC1 => HandshakeStep::Read(HANDSHAKE_CHUNK_SIZE),
            HandshakePhase::AwaitC2 => HandshakeStep::Read(HANDSHAKE_CHUNK_SIZE),
            HandshakePhase::SendS0 => {
                self.s0.write(&mut out);
                HandshakeStep::Write(out)
            },
            HandshakePhase::SendS1 => {
                self.s1.write(&mut out);
                HandshakeStep::Write(out)
            },
            HandshakePhase::SendS2 => {
                self.s2.write(&mut out);
                HandshakeStep::Write(out)
            },
            HandshakePhase::Done => HandshakeStep::Finished,
        }
    }

    /// Takes the bytes that were read for C0, C1 or C2. After C0 the server
    /// answers with version 3 whatever the client offered; after C1, S2
    /// echoes C1's time and random block with a zero second time.
    pub fn on_read(&mut self, bytes: &[u8]) -> (r: Result<(), RtmpError>)
        ensures
            r is Ok <==> takes_input(old(self).phase, bytes@.len() as int),
            r is Err ==> r == Err::<(), RtmpError>(RtmpError::UnexpectedHandshakeInput)
                && *final(self) == *old(self),
            r is Ok && old(self).phase == HandshakePhase::AwaitC0 ==> {
                &&& final(self).c0.version@ == bytes@
                &&& final(self).s0.version@ == seq![RTMP_VERSION]
                &&& final(self).phase == HandshakePhase::SendS0
                &&& final(self).c1 == old(self).c1
                &&& final(self).c2 == old(self).c2
                &&& final(self).s1 == old(self).s1
                &&& final(self).s2 == old(self).s2
            },
            r is Ok && old(self).phase == HandshakePhase::AwaitC1 ==> {
                &&& final(self).c1.bytes() == bytes@
                &&& final(self).s2.time == final(self).c1.time
                &&& final(self).s2.time_2@ == seq![0u8, 0u8, 0u8, 0u8]
                &&& final(self).s2.random_echo == final(self).c1.random_data
                &&& final(self).phase == HandshakePhase::SendS2
                &&& final(self).c0 == old(self).c0
                &&& final(self).c2 == old(self).c2
                &&& final(self).s0 == old(self).s0
                &&& final(self).s1 == old(self).s1
            },
            r is Ok && old(self).phase == HandshakePhase::AwaitC2 ==> {
                &&& final(self).c2.bytes() == bytes@
                &&& final(self).phase == HandshakePhase::Done
                &&& final(self).c0 == old(self).c0
                &&& final(self).c1 == old(self).c1
                &&& final(self).s0 == old(self).s0
                &&& final(self).s1 == old(self).s1
                &&& final(self).s2 == old(self).s2
            },
    {
        match self.phase {
            HandshakePhase::AwaitC0 => {
                if bytes.len() != 1 {
                    return Err(RtmpError::UnexpectedHandshakeInput);
                }
                self.c0.read(bytes);
                self.s0.set_version(RTMP_VERSION);
                self.phase = HandshakePhase::SendS0;
                Ok(())
            },
            HandshakePhase::AwaitC1 => {
                if bytes.len() != HANDSHAKE_CHUNK_SIZE {
                    return Err(RtmpError::UnexpectedHandshakeInput);
                }
                self.c1.read(bytes);
                self.s2.set_time_2(0);
                self.s2.set_time(self.c1.time);
                self.s2.set_random_echo(self.c1.random_data);
                assert(self.s2.time_2@ =~= seq![0u8, 0u8, 0u8, 0u8]);
                self.phase = HandshakePhase::SendS2;
                Ok(())
            },
            HandshakePhase::AwaitC2 => {
                if bytes.len() != HANDSHAKE_CHUNK_SIZE {
                    return Err(RtmpError::UnexpectedHandshakeInput);
                }
                self.c2.read(bytes);
                self.phase = HandshakePhase::Done;
                Ok(())
            },
            _ => Err(RtmpError::UnexpectedHandshakeInput),
        }
    }

    /// Notes that the bytes of the current send phase went out. Before S1 is
    /// sent it is prepared, stamped with the clock reading `elapsed_millis`
    /// (milliseconds since the Unix epoch).
    pub fn on_written(&mut self, elapsed_millis: u128) -> (r: Result<(), RtmpError>)
        ensures
            r is Ok <==> sends(old(self).phase),
            r is Err ==> r == Err::<(), RtmpError>(RtmpError::UnexpectedHandshakeInput)
                && *final(self) == *old(self),
            r is Ok ==> {
                &&& final(self).c0 == old(self).c0
                &&& final(self).c1 == old(self).c1
                &&& final(self).c2 == old(self).c2
                &&& final(self).s0 == old(self).s0
                &&& final(self).s2 == old(self).s2
            },
            r is Ok && old(self).phase == HandshakePhase::SendS0 ==> {
                &&& final(self).s1.time@ == be_u32_bytes(elapsed_millis as int % 0x1_0000_0000)
                &&& final(self).s1.zero@ == seq![0u8, 0u8, 0u8, 0u8]
                &&& final(self).phase == HandshakePhase::SendS1
            },
            r is Ok && old(self).phase == HandshakePhase::SendS1 ==> {
                &&& final(self).s1 == old(self).s1
                &&& final(self).phase == HandshakePhase::AwaitC1
            },
            r is Ok && old(self).phase == HandshakePhase::SendS2 ==> {
                &&& final(self).s1 == old(self).s1
                &&& final(self).phase == HandshakePhase::AwaitC2
            },
    {
        match self.phase {
            HandshakePhase::SendS0 => {
                self.s1.prepare(elapsed_millis);
                self.phase = HandshakePhase::SendS1;
                Ok(())
            },
            HandshakePhase::SendS1 => {
                self.phase = HandshakePhase::AwaitC1;
                Ok(())
            },
            HandshakePhase::SendS2 => {
                self.phase = HandshakePhase::AwaitC2;
                Ok(())
            },
            _ => Err(RtmpError::UnexpectedHandshakeInput),
        }
    }
}

} // verus!
