//! Big-endian integers as they stand on the wire.
//!
//! The meaning of a run of bytes is given here as plain arithmetic. Reading
//! is done here and proved against that meaning; writing is done by the
//! `byteorder` crate.
use byteorder::{BigEndian, ByteOrder};
use vstd::prelude::*;

verus! {

/// The number that two bytes spell, most significant byte first.
pub open spec fn be16(b: Seq<u8>) -> nat
    recommends
        b.len() == 2,
{
    b[0] as nat * 0x100 + b[1] as nat
}

/// The number that four bytes spell, most significant byte first.
pub open spec fn be32(b: Seq<u8>) -> nat
    recommends
        b.len() == 4,
{
    be16(b.subrange(0, 2)) * 0x1_0000 + be16(b.subrange(2, 4))
}

/// The number that eight bytes spell, most significant byte first.
pub open spec fn be64(b: Seq<u8>) -> nat
    recommends
        b.len() == 8,
{
    be32(b.subrange(0, 4)) * 0x1_0000_0000 + be32(b.subrange(4, 8))
}

/// The eight bytes that spell `n`, most significant byte first.
pub open spec fn be64_bytes(n: u64) -> Seq<u8> {
    seq![
        (n / 0x100_0000_0000_0000) as u8,
        (n / 0x1_0000_0000_0000 % 0x100) as u8,
        (n / 0x100_0000_0000 % 0x100) as u8,
        (n / 0x1_0000_0000 % 0x100) as u8,
        (n / 0x100_0000 % 0x100) as u8,
        (n / 0x1_0000 % 0x100) as u8,
        (n / 0x100 % 0x100) as u8,
        (n % 0x100) as u8,
    ]
}

/// Reading back what was written gives the number that was written, and its
/// upper and lower halves are the quotient and the remainder by 2^32.
pub proof fn lemma_be64_of_bytes(n: u64)
    ensures
        be64_bytes(n).len() == 8,
        be64(be64_bytes(n)) == n,
        be32(be64_bytes(n).subrange(0, 4)) == n / 0x1_0000_0000,
        be32(be64_bytes(n).subrange(4, 8)) == n % 0x1_0000_0000,
{
    let s = be64_bytes(n);
    let hi = s.subrange(0, 4);
    let lo = s.subrange(4, 8);
    assert(n / 0x100_0000_0000_0000 < 0x100) by (bit_vector);
    assert(n / 0x1_0000_0000 == (n / 0x100_0000_0000_0000) * 0x100_0000 + (n / 0x1_0000_0000_0000
        % 0x100) * 0x1_0000 + (n / 0x100_0000_0000 % 0x100) * 0x100 + n / 0x1_0000_0000 % 0x100)
        by (bit_vector);
    assert(n % 0x1_0000_0000 == (n / 0x100_0000 % 0x100) * 0x100_0000 + (n / 0x1_0000 % 0x100)
        * 0x1_0000 + (n / 0x100 % 0x100) * 0x100 + n % 0x100) by (bit_vector);
    assert(hi.subrange(0, 2)[0] == s[0] && hi.subrange(0, 2)[1] == s[1]);
    assert(hi.subrange(2, 4)[0] == s[2] && hi.subrange(2, 4)[1] == s[3]);
    assert(lo.subrange(0, 2)[0] == s[4] && lo.subrange(0, 2)[1] == s[5]);
    assert(lo.subrange(2, 4)[0] == s[6] && lo.subrange(2, 4)[1] == s[7]);
}

/// Eight bytes are exactly the bytes that spell their own number.
pub proof fn lemma_bytes_of_be64(b: Seq<u8>)
    requires
        b.len() == 8,
    ensures
        be64_bytes(be64(b) as u64) == b,
{
    let hi = b.subrange(0, 4);
    let lo = b.subrange(4, 8);
    assert(hi.subrange(0, 2)[0] == b[0] && hi.subrange(0, 2)[1] == b[1]);
    assert(hi.subrange(2, 4)[0] == b[2] && hi.subrange(2, 4)[1] == b[3]);
    assert(lo.subrange(0, 2)[0] == b[4] && lo.subrange(0, 2)[1] == b[5]);
    assert(lo.subrange(2, 4)[0] == b[6] && lo.subrange(2, 4)[1] == b[7]);
    let (b0, b1, b2, b3) = (b[0], b[1], b[2], b[3]);
    let (b4, b5, b6, b7) = (b[4], b[5], b[6], b[7]);
    let n: u64 = be64(b) as u64;
    assert(n == b0 as u64 * 0x100_0000_0000_0000 + b1 as u64 * 0x1_0000_0000_0000 + b2 as u64
        * 0x100_0000_0000 + b3 as u64 * 0x1_0000_0000 + b4 as u64 * 0x100_0000 + b5 as u64
        * 0x1_0000 + b6 as u64 * 0x100 + b7 as u64);
    assert(n / 0x100_0000_0000_0000 == b0 && n / 0x1_0000_0000_0000 % 0x100 == b1 && n
        / 0x100_0000_0000 % 0x100 == b2 && n / 0x1_0000_0000 % 0x100 == b3 && n / 0x100_0000
        % 0x100 == b4 && n / 0x1_0000 % 0x100 == b5 && n / 0x100 % 0x100 == b6 && n % 0x100
        == b7) by (bit_vector)
        requires
            n == b0 as u64 * 0x100_0000_0000_0000 + b1 as u64 * 0x1_0000_0000_0000 + b2 as u64
                * 0x100_0000_0000 + b3 as u64 * 0x1_0000_0000 + b4 as u64 * 0x100_0000 + b5 as u64
                * 0x1_0000 + b6 as u64 * 0x100 + b7 as u64,
    ;
    assert(be64_bytes(n) =~= b);
}

/// The number spelled by the first two bytes of `buf`.
pub(crate) fn read_u16(buf: &[u8]) -> (n: u16)
    requires
        buf@.len() >= 2,
    ensures
        n == be16(buf@.subrange(0, 2)),
{
    let hi: u8 = buf[0];
    let lo: u8 = buf[1];
    assert(((hi as u16) << 8) | (lo as u16) == hi * 0x100 + lo) by (bit_vector);
    ((hi as u16) << 8) | (lo as u16)
}

/// The number spelled by the first four bytes of `buf`.
pub(crate) fn read_u32(buf: &[u8]) -> (n: u32)
    requires
        buf@.len() >= 4,
    ensures
        n == be32(buf@.subrange(0, 4)),
{
    let hi: u16 = read_u16(buf);
    let lo: u16 = read_u16(&buf[2..4]);
    proof {
        assert(buf@.subrange(0, 4).subrange(0, 2) =~= buf@.subrange(0, 2));
        assert(buf@.subrange(0, 4).subrange(2, 4) =~= buf@.subrange(2, 4).subrange(0, 2));
        assert(((hi as u32) << 16) | (lo as u32) == hi * 0x1_0000 + lo) by (bit_vector);
    }
    ((hi as u32) << 16) | (lo as u32)
}

/// The number spelled by the first eight bytes of `buf`.
pub(crate) fn read_u64(buf: &[u8]) -> (n: u64)
    requires
        buf@.len() >= 8,
    ensures
        n == be64(buf@.subrange(0, 8)),
{
    let hi: u32 = read_u32(buf);
    let lo: u32 = read_u32(&buf[4..8]);
    proof {
        assert(buf@.subrange(0, 8).subrange(0, 4) =~= buf@.subrange(0, 4));
        assert(buf@.subrange(0, 8).subrange(4, 8) =~= buf@.subrange(4, 8).subrange(0, 4));
        assert(((hi as u64) << 32) | (lo as u64) == hi * 0x1_0000_0000 + lo) by (bit_vector);
    }
    ((hi as u64) << 32) | (lo as u64)
}

/// `BigEndian::write_u64` of `byteorder`, on a buffer of exactly eight bytes:
/// afterwards the buffer holds the bytes that spell `n`.
#[verifier::external_body]
pub(crate) fn write_u64(buf: &mut [u8; 8], n: u64)
    ensures
        final(buf)@ == be64_bytes(n),
{
    BigEndian::write_u64(buf, n)
}

} // verus!
