//! Single bits of masks.

use vstd::prelude::*;

verus! {

/// Whether bit `i` of a mask is set.
pub open spec fn bit8(mask: u8, i: int) -> bool {
    mask & (1u8 << (i as u8)) != 0
}

/// Whether bit `i` of a mask is set.
pub open spec fn bit16(mask: u16, i: int) -> bool {
    mask & (1u16 << (i as u16)) != 0
}

/// Whether bit `i` of a mask is set.
pub fn has_bit8(mask: u8, i: u32) -> (r: bool)
    requires
        i < 8,
    ensures
        r == bit8(mask, i as int),
{
    mask & (1u8 << (i as u8)) != 0
}

/// Whether bit `i` of a mask is set.
pub fn has_bit16(mask: u16, i: u32) -> (r: bool)
    requires
        i < 16,
    ensures
        r == bit16(mask, i as int),
{
    mask & (1u16 << (i as u16)) != 0
}

/// A mask with bit `i` set as well.
pub fn with_bit8(mask: u8, i: u32) -> (r: u8)
    requires
        i < 8,
    ensures
        forall|j: int| 0 <= j < 8 ==> #[trigger] bit8(r, j) == (j == i || bit8(mask, j)),
{
    let k: u8 = i as u8;
    let r: u8 = mask | (1u8 << k);
    assert forall|j: int| 0 <= j < 8 implies #[trigger] bit8(r, j) == (j == i || bit8(mask, j)) by {
        let m = j as u8;
        assert(((mask | (1u8 << k)) & (1u8 << m) != 0) == (m == k || mask & (1u8 << m) != 0))
            by (bit_vector)
            requires
                k < 8,
                m < 8,
        ;
    }
    r
}

/// A mask with bit `i` set as well.
pub fn with_bit16(mask: u16, i: u32) -> (r: u16)
    requires
        i < 16,
    ensures
        forall|j: int| 0 <= j < 16 ==> #[trigger] bit16(r, j) == (j == i || bit16(mask, j)),
{
    let k: u16 = i as u16;
    let r: u16 = mask | (1u16 << k);
    assert forall|j: int| 0 <= j < 16 implies #[trigger] bit16(r, j) == (j == i || bit16(mask, j)) by {
        let m = j as u16;
        assert(((mask | (1u16 << k)) & (1u16 << m) != 0) == (m == k || mask & (1u16 << m) != 0))
            by (bit_vector)
            requires
                k < 16,
                m < 16,
        ;
    }
    r
}

/// No bit of zero is set.
pub proof fn zero_has_no_bits()
    ensures
        forall|j: int| 0 <= j < 8 ==> !#[trigger] bit8(0, j),
        forall|j: int| 0 <= j < 16 ==> !#[trigger] bit16(0, j),
{
    assert(forall|j: u8| #[trigger] (0u8 & (1u8 << j)) == 0) by (bit_vector);
    assert(forall|j: u16| #[trigger] (0u16 & (1u16 << j)) == 0) by (bit_vector);
}

} // verus!
