//! Big-endian integers on the wire.

use byteorder::{BigEndian, ByteOrder};
use vstd::prelude::*;

verus! {

/// The value of three bytes, most significant first.
pub open spec fn be_u24(s: Seq<u8>) -> int {
    s[0] as int * 0x10000 + s[1] as int * 0x100 + s[2] as int
}

/// The value of four bytes, most significant first.
pub open spec fn be_u32(s: Seq<u8>) -> int {
    s[0] as int * 0x1000000 + s[1] as int * 0x10000 + s[2] as int * 0x100 + s[3] as int
}

/// `n` written as three bytes, most significant first.
pub open spec fn be_u24_bytes(n: int) -> Seq<u8> {
    seq![(n / 0x10000) as u8, (n / 0x100 % 0x100) as u8, (n % 0x100) as u8]
}

/// `n` written as four bytes, most significant first.
pub open spec fn be_u32_bytes(n: int) -> Seq<u8> {
    seq![
        (n / 0x1000000) as u8,
        (n / 0x10000 % 0x100) as u8,
        (n / 0x100 % 0x100) as u8,
        (n % 0x100) as u8,
    ]
}

/// Relies on byteorder's `BigEndian::read_u24`: the three bytes from `at` on,
/// most significant first.
#[verifier::external_body]
pub(crate) fn read_be_u24(b: &[u8], at: usize) -> (r: u32)
    requires
        at + 3 <= b@.len(),
    ensures
        r as int == be_u24(b@.subrange(at as int, at + 3)),
{
    BigEndian::read_u24(&b[at..])
}

/// Relies on byteorder's `BigEndian::read_u32`: the four bytes from `at` on,
/// most significant first.
#[verifier::external_body]
pub(crate) fn read_be_u32(b: &[u8], at: usize) -> (r: u32)
    requires
        at + 4 <= b@.len(),
    ensures
        r as int == be_u32(b@.subrange(at as int, at + 4)),
{
    BigEndian::read_u32(&b[at..])
}

/// Relies on byteorder's `BigEndian::write_u24`: `n` as three bytes, most
/// significant first (it panics on a value of more than 24 bits).
#[verifier::external_body]
pub(crate) fn write_be_u24(n: u32) -> (r: [u8; 3])
    requires
        n < 0x100_0000,
    ensures
        r@ == be_u24_bytes(n as int),
{
    let mut b = [0u8; 3];
    BigEndian::write_u24(&mut b, n);
    b
}

/// Relies on byteorder's `BigEndian::write_u32`: `n` as four bytes, most
/// significant first.
#[verifier::external_body]
pub(crate) fn write_be_u32(n: u32) -> (r: [u8; 4])
    ensures
        r@ == be_u32_bytes(n as int),
{
    let mut b = [0u8; 4];
    BigEndian::write_u32(&mut b, n);
    b
}

/// Appends the bytes of `data` to `out`.
pub(crate) fn append(out: &mut Vec<u8>, data: &[u8])
    ensures
        final(out)@ == old(out)@ + data@,
{
    let ghost start = out@;
    let mut i: usize = 0;
    while i < data.len()
        invariant
            i <= data@.len(),
            out@ == start + data@.subrange(0, i as int),
        decreases data@.len() - i,
    {
        out.push(data[i]);
        i = i + 1;
        assert(out@ =~= start + data@.subrange(0, i as int));
    }
    assert(data@.subrange(0, i as int) =~= data@);
}

/// The `N` bytes of `src` from `at` on, as an array.
pub(crate) fn array_at<const N: usize>(src: &[u8], at: usize) -> (r: [u8; N])
    requires
        at + N <= src@.len(),
    ensures
        r@ == src@.subrange(at as int, at + N),
{
    let len = src.len();
    let mut r = [0u8; N];
    let mut i: usize = 0;
    while i < N
        invariant
            len == src@.len(),
            at + N <= src@.len(),
            i <= N,
            r@.len() == N,
            forall|j: int| 0 <= j < i ==> r@[j] == src@[at + j],
        decreases N - i,
    {
        r[i] = src[at + i];
        i = i + 1;
    }
    assert(r@ =~= src@.subrange(at as int, at + N));
    r
}

/// Reading back three written bytes gives the value written.
pub proof fn lemma_be_u24_round_trip(n: int)
    requires
        0 <= n < 0x100_0000,
    ensures
        be_u24(be_u24_bytes(n)) == n,
        be_u24_bytes(n).len() == 3,
{
}

/// Reading back four written bytes gives the value written.
pub proof fn lemma_be_u32_round_trip(n: int)
    requires
        0 <= n < 0x1_0000_0000,
    ensures
        be_u32(be_u32_bytes(n)) == n,
        be_u32_bytes(n).len() == 4,
{
}

} // verus!
