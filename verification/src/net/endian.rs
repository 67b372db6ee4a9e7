//! Fixed-width integers in wire order, read and written through `byteorder`.

use byteorder::{BigEndian, ByteOrder, LittleEndian, WriteBytesExt};
use vstd::prelude::*;

verus! {

/// The 16-bit value whose most significant byte is `hi`.
pub open spec fn u16_of(hi: u8, lo: u8) -> u16 {
    (hi as int * 256 + lo as int) as u16
}

/// The 32-bit value of four bytes, most significant first.
pub open spec fn u32_of(b0: u8, b1: u8, b2: u8, b3: u8) -> u32 {
    (b0 as int * 0x100_0000 + b1 as int * 0x1_0000 + b2 as int * 0x100 + b3 as int) as u32
}

/// The most significant byte of `n`.
pub open spec fn high_byte(n: u16) -> u8 {
    (n as int / 256) as u8
}

/// The least significant byte of `n`.
pub open spec fn low_byte(n: u16) -> u8 {
    (n as int % 256) as u8
}

/// Splitting a 16-bit value into its bytes and joining them again gives the
/// value back, and the other way round.
pub proof fn lemma_u16_bytes(n: u16, hi: u8, lo: u8)
    ensures
        u16_of(high_byte(n), low_byte(n)) == n,
        high_byte(u16_of(hi, lo)) == hi,
        low_byte(u16_of(hi, lo)) == lo,
{
}

/// `byteorder::BigEndian::read_u16`: the first two bytes of `buf` as a
/// network-order integer. The outside function panics on a shorter buffer,
/// which the precondition leaves out.
#[verifier::external_body]
pub(crate) fn read_u16_be(buf: &[u8]) -> (r: u16)
    requires
        buf@.len() >= 2,
    ensures
        r == u16_of(buf@[0], buf@[1]),
{
    BigEndian::read_u16(buf)
}

/// `byteorder::BigEndian::read_u32`: the first four bytes of `buf` as a
/// network-order integer. The outside function panics on a shorter buffer,
/// which the precondition leaves out.
#[verifier::external_body]
pub(crate) fn read_u32_be(buf: &[u8]) -> (r: u32)
    requires
        buf@.len() >= 4,
    ensures
        r == u32_of(buf@[0], buf@[1], buf@[2], buf@[3]),
{
    BigEndian::read_u32(buf)
}

/// `byteorder::LittleEndian::read_u16`: the first two bytes of `buf` as an
/// integer whose least significant byte comes first. The outside function
/// panics on a shorter buffer, which the precondition leaves out.
#[verifier::external_body]
pub(crate) fn read_u16_le(buf: &[u8]) -> (r: u16)
    requires
        buf@.len() >= 2,
    ensures
        r == u16_of(buf@[1], buf@[0]),
{
    LittleEndian::read_u16(buf)
}

/// `byteorder::WriteBytesExt::write_u16::<BigEndian>` on a `Vec<u8>`: the two
/// bytes of `n` are appended, most significant first. Writing to a vector
/// does not fail, so the `io::Result` carries nothing.
#[verifier::external_body]
pub(crate) fn push_u16_be(out: &mut Vec<u8>, n: u16)
    ensures
        final(out)@ == old(out)@.push(high_byte(n)).push(low_byte(n)),
{
    let _ = out.write_u16::<BigEndian>(n);
}

/// `byteorder::LittleEndian::write_u16` on the part of `buf` that starts at
/// `at`: the two bytes there become those of `n`, least significant first,
/// and nothing else changes. The outside function panics when fewer than two
/// bytes are left, which the precondition leaves out.
#[verifier::external_body]
pub(crate) fn put_u16_le(buf: &mut Vec<u8>, at: usize, n: u16)
    requires
        at + 2 <= old(buf)@.len(),
    ensures
        final(buf)@ == old(buf)@.update(at as int, low_byte(n)).update(at + 1, high_byte(n)),
{
    LittleEndian::write_u16(&mut buf[at..], n);
}

} // verus!
