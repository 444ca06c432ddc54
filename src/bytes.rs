//! Byte-level helpers shared by the key and envelope types.

use vstd::prelude::*;

verus! {

/// Compares two byte slices element by element.
pub(crate) fn bytes_eq(a: &[u8], b: &[u8]) -> (r: bool)
    ensures
        r == (a@ == b@),
{
    if a.len() != b.len() {
        return false;
    }
    let mut i: usize = 0;
    while i < a.len()
        invariant
            a@.len() == b@.len(),
            i <= a@.len(),
            forall|j: int| 0 <= j < i ==> a@[j] == b@[j],
        decreases a@.len() - i,
    {
        if a[i] != b[i] {
            return false;
        }
        i = i + 1;
    }
    assert(a@ =~= b@);
    true
}

} // verus!

verus! {

/// The 8 little-endian bytes of a 64-bit word.
pub open spec fn le_bytes(x: u64) -> Seq<u8> {
    seq![
        (x & 0xff) as u8,
        ((x >> 8) & 0xff) as u8,
        ((x >> 16) & 0xff) as u8,
        ((x >> 24) & 0xff) as u8,
        ((x >> 32) & 0xff) as u8,
        ((x >> 40) & 0xff) as u8,
        ((x >> 48) & 0xff) as u8,
        ((x >> 56) & 0xff) as u8,
    ]
}

/// Four 64-bit words as 32 bytes, each word little-endian, in order.
pub open spec fn words_le(w: Seq<u64>) -> Seq<u8> {
    le_bytes(w[0]) + le_bytes(w[1]) + le_bytes(w[2]) + le_bytes(w[3])
}

/// Writes the little-endian bytes of `x` at `at..at + 8`.
pub(crate) fn put_le_u64(buf: &mut [u8; 32], at: usize, x: u64)
    requires
        at + 8 <= 32,
    ensures
        final(buf)@ =~= old(buf)@.subrange(0, at as int) + le_bytes(x) + old(buf)@.subrange(
            at + 8,
            32,
        ),
{
    buf[at] = (x & 0xff) as u8;
    buf[at + 1] = ((x >> 8) & 0xff) as u8;
    buf[at + 2] = ((x >> 16) & 0xff) as u8;
    buf[at + 3] = ((x >> 24) & 0xff) as u8;
    buf[at + 4] = ((x >> 32) & 0xff) as u8;
    buf[at + 5] = ((x >> 40) & 0xff) as u8;
    buf[at + 6] = ((x >> 48) & 0xff) as u8;
    buf[at + 7] = ((x >> 56) & 0xff) as u8;
}

} // verus!

verus! {

/// Four 64-bit words as 32 little-endian bytes, in order.
pub(crate) fn words_to_bytes(words: [u64; 4]) -> (r: [u8; 32])
    ensures
        r@ == words_le(words@),
{
    let mut bytes = [0u8; 32];
    put_le_u64(&mut bytes, 0, words[0]);
    put_le_u64(&mut bytes, 8, words[1]);
    put_le_u64(&mut bytes, 16, words[2]);
    put_le_u64(&mut bytes, 24, words[3]);
    assert(bytes@ =~= words_le(words@));
    bytes
}

} // verus!
