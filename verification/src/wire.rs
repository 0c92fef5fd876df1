//! Integers and alignment as they appear on the wire.
//!
//! Netlink writes its header fields in the byte order of the host. This crate
//! fixes that order to little-endian, so a message is the same sequence of
//! bytes wherever it is built.

use vstd::prelude::*;

verus! {

/// Number of bytes in an attribute header: a 16-bit length, then a 16-bit type field.
pub const HEADER_LEN: usize = 4;

/// Every attribute starts at a multiple of this many bytes.
pub const ALIGNMENT: usize = 4;

/// The smallest multiple of four that is not below `n`.
pub open spec fn spec_align(n: nat) -> nat {
    ((n + 3) / 4 * 4) as nat
}

/// The number of bytes that fill `n` bytes up to the next multiple of four.
pub open spec fn spec_padding(n: nat) -> nat {
    (spec_align(n) - n) as nat
}

/// A run of `n` zero bytes.
pub open spec fn spec_zeros(n: nat) -> Seq<u8> {
    Seq::new(n, |i: int| 0u8)
}

/// The two bytes of a 16-bit integer, low byte first.
pub open spec fn spec_u16_bytes(x: u16) -> Seq<u8> {
    seq![(x % 256) as u8, (x / 256) as u8]
}

/// The 16-bit integer whose low byte is `lo` and whose high byte is `hi`.
pub open spec fn spec_u16_from_bytes(lo: u8, hi: u8) -> u16 {
    (lo + 256 * hi) as u16
}

/// Rounds `n` up to the next multiple of four.
pub fn align(n: usize) -> (r: usize)
    requires
        n + 3 <= usize::MAX,
    ensures
        r == spec_align(n as nat),
{
    (n + 3) / 4 * 4
}

/// Splits a 16-bit integer into its low and high byte.
pub fn u16_bytes(x: u16) -> (r: (u8, u8))
    ensures
        seq![r.0, r.1] == spec_u16_bytes(x),
        spec_u16_from_bytes(r.0, r.1) == x,
{
    ((x % 256) as u8, (x / 256) as u8)
}

/// Joins a low and a high byte into a 16-bit integer.
pub fn u16_from_bytes(lo: u8, hi: u8) -> (r: u16)
    ensures
        r == spec_u16_from_bytes(lo, hi),
        spec_u16_bytes(r) == seq![lo, hi],
{
    lo as u16 + 256 * (hi as u16)
}

/// Joining the two bytes of a 16-bit integer gives the integer back.
pub proof fn lemma_u16_split_join(x: u16)
    ensures
        spec_u16_bytes(x).len() == 2,
        spec_u16_from_bytes(spec_u16_bytes(x)[0], spec_u16_bytes(x)[1]) == x,
{
}

/// Splitting the integer that two bytes were joined into gives the bytes
/// back.
pub proof fn lemma_u16_join_split(lo: u8, hi: u8)
    ensures
        spec_u16_bytes(spec_u16_from_bytes(lo, hi)) == seq![lo, hi],
{
}

/// The low byte of a 16-bit integer is its bits 0 to 7 and the high byte its
/// bits 8 to 15.
pub proof fn lemma_u16_bytes_bits(x: u16)
    ensures
        spec_u16_bytes(x)[0] == x & 0xff,
        spec_u16_bytes(x)[1] == x >> 8,
{
    assert(x % 256 == x & 0xff) by (bit_vector);
    assert(x / 256 == x >> 8) by (bit_vector);
}

/// `spec_align` rounds up by less than four and lands on a multiple of four.
pub proof fn lemma_align(n: nat)
    ensures
        n <= spec_align(n) < n + 4,
        spec_align(n) % 4 == 0,
        n % 4 == 0 ==> spec_align(n) == n,
        spec_padding(n) < 4,
{
}

} // verus!
