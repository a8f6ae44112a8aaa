//! 32-bit words as four bytes, least significant byte first.

use vstd::prelude::*;

verus! {

/// The four bytes that stand for `x` on the wire, least significant first.
pub open spec fn le_bytes(x: u32) -> Seq<u8> {
    seq![
        (x % 0x100) as u8,
        (x / 0x100 % 0x100) as u8,
        (x / 0x1_0000 % 0x100) as u8,
        (x / 0x100_0000) as u8,
    ]
}

/// The number whose base-256 digits, least significant first, are
/// `s[0]`, `s[1]`, `s[2]` and `s[3]`.
pub open spec fn le_value(s: Seq<u8>) -> int
    recommends
        s.len() >= 4,
{
    s[0] + 0x100 * s[1] + 0x1_0000 * s[2] + 0x100_0000 * s[3]
}

/// Decoding undoes encoding.
pub proof fn lemma_le_value_of_bytes(x: u32)
    ensures
        le_bytes(x).len() == 4,
        le_value(le_bytes(x)) == x,
{
    assert(x / 0x100 / 0x100 == x / 0x1_0000);
    assert(x / 0x1_0000 / 0x100 == x / 0x100_0000);
}

/// Encoding undoes decoding: four bytes are the encoding of their value.
pub proof fn lemma_le_bytes_of_value(s: Seq<u8>)
    requires
        s.len() == 4,
    ensures
        0 <= le_value(s) <= u32::MAX,
        le_bytes(le_value(s) as u32) == s,
{
    let v: int = le_value(s);
    let high: int = s[2] + 0x100 * s[3];
    let low: int = s[0] + 0x100 * s[1];
    assert(v == low + 0x1_0000 * high);
    assert(v / 0x1_0000 == high && v % 0x1_0000 == low);
    assert(v / 0x100 == s[1] + 0x100 * high);
    assert(v / 0x100_0000 == s[3]);
    assert(le_bytes(v as u32) =~= s);
}

/// Appends the little-endian bytes of `x` to `out`.
pub(crate) fn push_le(out: &mut Vec<u8>, x: u32)
    ensures
        final(out)@ == old(out)@ + le_bytes(x),
{
    out.push((x % 0x100) as u8);
    out.push((x / 0x100 % 0x100) as u8);
    out.push((x / 0x1_0000 % 0x100) as u8);
    out.push((x / 0x100_0000) as u8);
    assert(out@ =~= old(out)@ + le_bytes(x));
}

/// Reads the word whose little-endian bytes start at index `at`.
pub(crate) fn read_le(bytes: &[u8], at: usize) -> (x: u32)
    requires
        at + 4 <= bytes@.len(),
    ensures
        x == le_value(bytes@.subrange(at as int, at + 4)),
{
    let b0: u32 = bytes[at] as u32;
    let b1: u32 = bytes[at + 1] as u32;
    let b2: u32 = bytes[at + 2] as u32;
    let b3: u32 = bytes[at + 3] as u32;
    b0 + 0x100 * b1 + 0x1_0000 * b2 + 0x100_0000 * b3
}

} // verus!
