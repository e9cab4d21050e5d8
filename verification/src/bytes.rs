//! Words in runs of bytes.

use vstd::prelude::*;

verus! {

/// Word `w` of a run of bytes, the lowest byte first.
pub open spec fn word_at(bytes: Seq<u8>, w: int) -> int {
    bytes[4 * w] + bytes[4 * w + 1] * 0x100 + bytes[4 * w + 2] * 0x1_0000 + bytes[4 * w + 3]
        * 0x100_0000
}

/// Writes word `w`, the lowest byte first.
pub fn put_word<const N: usize>(bytes: &mut [u8; N], w: usize, v: u32)
    requires
        4 * w + 4 <= N,
    ensures
        word_at(final(bytes)@, w as int) == v,
        forall|u: int|
            0 <= u && 4 * u + 4 <= N && u != w ==> #[trigger] word_at(final(bytes)@, u) == word_at(
                old(bytes)@,
                u,
            ),
{
    bytes[4 * w] = (v % 0x100) as u8;
    bytes[4 * w + 1] = (v / 0x100 % 0x100) as u8;
    bytes[4 * w + 2] = (v / 0x1_0000 % 0x100) as u8;
    bytes[4 * w + 3] = (v / 0x100_0000) as u8;
    assert(word_at(bytes@, w as int) == v);
}

} // verus!
