//! The byte encodings: four-byte little-endian words.

use vstd::prelude::*;

verus! {

/// The number that four bytes stand for, least significant byte first.
pub open spec fn le_u32(bytes: Seq<u8>) -> int
    recommends
        bytes.len() == 4,
{
    bytes[0] + 256 * bytes[1] + 65536 * bytes[2] + 16777216 * bytes[3]
}

/// The four bytes that stand for a number, least significant byte first.
pub open spec fn u32_le(value: u32) -> Seq<u8> {
    seq![
        (value % 256) as u8,
        ((value / 256) % 256) as u8,
        ((value / 65536) % 256) as u8,
        (value / 16777216) as u8,
    ]
}

/// Reads the word stored at `bytes[at..at + 4]`.
pub fn read_u32(bytes: &[u8], at: usize) -> (value: u32)
    requires
        at + 4 <= bytes@.len(),
    ensures
        value == le_u32(bytes@.subrange(at as int, at + 4)),
{
    let b0 = bytes[at] as u32;
    let b1 = bytes[at + 1] as u32;
    let b2 = bytes[at + 2] as u32;
    let b3 = bytes[at + 3] as u32;
    b0 + 256 * b1 + 65536 * b2 + 16777216 * b3
}

/// Appends the four bytes of `value` to `out`.
pub fn push_u32(out: &mut Vec<u8>, value: u32)
    ensures
        final(out)@ == old(out)@ + u32_le(value),
{
    out.push((value % 256) as u8);
    out.push(((value / 256) % 256) as u8);
    out.push(((value / 65536) % 256) as u8);
    out.push((value / 16777216) as u8);
    assert(out@ =~= old(out)@ + u32_le(value));
}

/// Encoding a number and reading the bytes back gives the number.
pub proof fn lemma_u32_le_decodes(value: u32)
    ensures
        u32_le(value).len() == 4,
        le_u32(u32_le(value)) == value,
{
    let v = value as int;
    let q1 = v / 256;
    let q2 = q1 / 256;
    let q3 = q2 / 256;
    assert(v / 65536 == q2);
    assert(v / 16777216 == q3);
    assert(v == (v % 256) + 256 * (q1 % 256) + 65536 * (q2 % 256) + 16777216 * q3);
}

/// Four bytes stand for a number that fits a word, and encoding that number
/// gives the same four bytes.
pub proof fn lemma_le_u32_encodes(bytes: Seq<u8>)
    requires
        bytes.len() == 4,
    ensures
        0 <= le_u32(bytes) <= u32::MAX,
        u32_le(le_u32(bytes) as u32) == bytes,
{
    let x = le_u32(bytes);
    let r1 = bytes[1] + 256 * bytes[2] + 65536 * bytes[3];
    let r2 = bytes[2] + 256 * bytes[3];
    assert(x == bytes[0] + 256 * r1);
    assert(x / 256 == r1 && x % 256 == bytes[0]);
    assert(r1 == bytes[1] + 256 * r2);
    assert(r1 / 256 == r2 && r1 % 256 == bytes[1]);
    assert(r2 / 256 == bytes[3] && r2 % 256 == bytes[2]);
    assert(x / 65536 == r2);
    assert(x / 16777216 == bytes[3] as int);
    assert(u32_le(x as u32) =~= bytes);
}

} // verus!
