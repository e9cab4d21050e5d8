//! What codes say about pixels and vertices, in the numbers of the codes themselves.

use super::color::{
    fill_bytes, le16, le32, packed_1555, packed_4444, packed_565, unorm_f16, unorm_f32,
};
use super::vertex::{
    beta_semantics, coord_semantics, coord_set_count, flagged, fvf_semantics, leading_semantics,
    position_semantics, Semantic,
};
use vstd::prelude::*;

verus! {

/// Two bytes as a number, the lower first.
pub open spec fn word16(s: Seq<u8>, at: int) -> int {
    s[at] + s[at + 1] * 0x100
}

/// Four bytes as a number, the lowest first.
pub open spec fn word32(s: Seq<u8>, at: int) -> int {
    s[at] + s[at + 1] * 0x100 + s[at + 2] * 0x1_0000 + s[at + 3] * 0x100_0000
}

/// A packed pixel keeps the top bits of every channel in its place: five, six and five
/// (23), one and five each (24, 25), or four each (26).
pub proof fn packed_pixels_keep_the_top_bits(color: u32)
    ensures
        ({
            let a = color as int / 0x100_0000;
            let r = color as int / 0x1_0000 % 0x100;
            let g = color as int / 0x100 % 0x100;
            let b = color as int % 0x100;
            &&& fill_bytes(color, 23) matches Some(s) && s.len() == 2 && word16(s, 0) / 0x800 == r
                / 8 && word16(s, 0) / 0x20 % 0x40 == g / 4 && word16(s, 0) % 0x20 == b / 8
            &&& fill_bytes(color, 25) matches Some(s) && s.len() == 2 && word16(s, 0) / 0x8000 == a
                / 128 && word16(s, 0) / 0x400 % 0x20 == r / 8 && word16(s, 0) / 0x20 % 0x20 == g / 8
                && word16(s, 0) % 0x20 == b / 8
            &&& fill_bytes(color, 24) == fill_bytes(color, 25)
            &&& fill_bytes(color, 26) matches Some(s) && s.len() == 2 && word16(s, 0) / 0x1000 == a
                / 16 && word16(s, 0) / 0x100 % 0x10 == r / 16 && word16(s, 0) / 0x10 % 0x10 == g
                / 16 && word16(s, 0) % 0x10 == b / 16
        }),
{
    let a = (color as int / 0x100_0000) as u8;
    let r = (color as int / 0x1_0000 % 0x100) as u8;
    let g = (color as int / 0x100 % 0x100) as u8;
    let b = (color as int % 0x100) as u8;
    packed_fields(a, r, g, b);
    numbers_read_back(packed_565(r, g, b));
    numbers_read_back(packed_1555(a, r, g, b));
    numbers_read_back(packed_4444(a, r, g, b));
    assert(fill_bytes(color, 23) == Some(le16(packed_565(r, g, b))));
    assert(fill_bytes(color, 25) == Some(le16(packed_1555(a, r, g, b))));
    assert(fill_bytes(color, 26) == Some(le16(packed_4444(a, r, g, b))));
}

proof fn field(v: int, above: int, size: int, x: int, below: int, scale: int)
    requires
        0 <= above,
        0 < size,
        0 <= x < size,
        0 < scale,
        0 <= below < scale,
        v == (above * size + x) * scale + below,
    ensures
        v / scale == above * size + x,
        v % scale == below,
        (above * size + x) % size == x,
{
    vstd::arithmetic::div_mod::lemma_fundamental_div_mod_converse(
        v,
        scale,
        above * size + x,
        below,
    );
    vstd::arithmetic::div_mod::lemma_fundamental_div_mod_converse(above * size + x, size, above, x);
}

proof fn packed_fields(a: u8, r: u8, g: u8, b: u8)
    ensures
        ({
            let v = packed_565(r, g, b);
            0 <= v < 0x1_0000 && v / 0x800 == r / 8 && v / 0x20 % 0x40 == g / 4 && v % 0x20 == b / 8
        }),
        ({
            let v = packed_1555(a, r, g, b);
            0 <= v < 0x1_0000 && v / 0x8000 == a / 128 && v / 0x400 % 0x20 == r / 8 && v / 0x20
                % 0x20 == g / 8 && v % 0x20 == b / 8
        }),
        ({
            let v = packed_4444(a, r, g, b);
            0 <= v < 0x1_0000 && v / 0x1000 == a / 16 && v / 0x100 % 0x10 == r / 16 && v / 0x10
                % 0x10 == g / 16 && v % 0x10 == b / 16
        }),
{
    let v = packed_565(r, g, b);
    field(v, (r / 8) as int, 0x40, (g / 4) as int, (b / 8) as int, 0x20);
    field(v, 0, 0x20, (r / 8) as int, (g / 4) * 0x20 + b / 8, 0x800);
    let v = packed_1555(a, r, g, b);
    field(v, (a / 128) * 0x20 + r / 8, 0x20, (g / 8) as int, (b / 8) as int, 0x20);
    field(v, (a / 128) as int, 0x20, (r / 8) as int, (g / 8) * 0x20 + b / 8, 0x400);
    field(v, 0, 2, (a / 128) as int, (r / 8) * 0x400 + (g / 8) * 0x20 + b / 8, 0x8000);
    let v = packed_4444(a, r, g, b);
    field(v, (a / 16) * 0x10 + r / 16, 0x10, (g / 16) as int, (b / 16) as int, 0x10);
    field(v, (a / 16) as int, 0x10, (r / 16) as int, (g / 16) * 0x10 + b / 16, 0x100);
    field(v, 0, 0x10, (a / 16) as int, (r / 16) * 0x100 + (g / 16) * 0x10 + b / 16, 0x1000);
}

/// A pixel of whole bytes holds its channels in the order of its layout: blue first (21, 22)
/// or red first (32, 33), alpha alone (28), or the luminance (50).
pub proof fn byte_pixels_hold_their_channels(color: u32)
    ensures
        ({
            let a = (color as int / 0x100_0000) as u8;
            let r = (color as int / 0x1_0000 % 0x100) as u8;
            let g = (color as int / 0x100 % 0x100) as u8;
            let b = (color as int % 0x100) as u8;
            &&& fill_bytes(color, 21) == Some(seq![b, g, r, a])
            &&& fill_bytes(color, 22) == Some(seq![b, g, r, a])
            &&& fill_bytes(color, 32) == Some(seq![r, g, b, a])
            &&& fill_bytes(color, 33) == Some(seq![r, g, b, a])
            &&& fill_bytes(color, 28) == Some(seq![a])
            &&& fill_bytes(color, 50) matches Some(s) && s.len() == 1 && -5000 <= 10000 * s[0] - (
            2125 * r + 7154 * g + 721 * b) <= 5000
        }),
{
}

/// A wide pixel holds red, green, blue and alpha in this order, as many as it has: as
/// sixteen bits (34, 36), as half floats (111, 112, 113) or as floats (114, 115, 116).
pub proof fn wide_pixels_hold_their_channels(color: u32)
    ensures
        ({
            let a = (color as int / 0x100_0000) as u8;
            let r = (color as int / 0x1_0000 % 0x100) as u8;
            let g = (color as int / 0x100 % 0x100) as u8;
            let b = (color as int % 0x100) as u8;
            &&& fill_bytes(color, 34) == Some(le16(257 * r) + le16(257 * g))
            &&& fill_bytes(color, 36) == Some(
                le16(257 * r) + le16(257 * g) + le16(257 * b) + le16(257 * a),
            )
            &&& fill_bytes(color, 111) == Some(le16(unorm_f16(r)))
            &&& fill_bytes(color, 112) == Some(le16(unorm_f16(r)) + le16(unorm_f16(g)))
            &&& fill_bytes(color, 113) == Some(
                le16(unorm_f16(r)) + le16(unorm_f16(g)) + le16(unorm_f16(b)) + le16(unorm_f16(a)),
            )
            &&& fill_bytes(color, 114) == Some(le32(unorm_f32(r)))
            &&& fill_bytes(color, 115) == Some(le32(unorm_f32(r)) + le32(unorm_f32(g)))
            &&& fill_bytes(color, 116) == Some(
                le32(unorm_f32(r)) + le32(unorm_f32(g)) + le32(unorm_f32(b)) + le32(unorm_f32(a)),
            )
        }),
{
}

/// Numbers are stored with their lowest byte first.
pub proof fn numbers_read_back(n: int)
    ensures
        0 <= n < 0x1_0000 ==> le16(n).len() == 2 && word16(le16(n), 0) == n,
        0 <= n < 0x1_0000_0000 ==> le32(n).len() == 4 && word32(le32(n), 0) == n,
{
}

/// Where an element stands in a vertex: position, weights, indices, normal, size, colours,
/// coordinate sets.
pub open spec fn rank(s: Semantic) -> int {
    if s.usage == 0 || s.usage == 9 {
        0
    } else if s.usage == 1 {
        1
    } else if s.usage == 2 {
        2
    } else if s.usage == 3 {
        3
    } else if s.usage == 4 {
        4
    } else if s.usage == 10 {
        5 + s.usage_index
    } else {
        7 + s.usage_index
    }
}

/// How many coordinate sets a vertex format asks for, eight at the most.
pub open spec fn sets_asked_for(fvf: u32) -> int {
    let n = fvf as int / 0x100 % 0x10;
    if n <= 8 {
        n
    } else {
        8
    }
}

/// Whether the last number behind a position is an index or what packs one.
pub open spec fn asks_for_indices(fvf: u32) -> bool {
    fvf & 0x8000 != 0 || fvf & 0x1000 != 0 || fvf & 0x0e == 14
}

/// How many numbers behind a position are weights.
pub open spec fn weights_asked_for(fvf: u32) -> int {
    let pos = fvf & 0x0e;
    (pos - 4) / 2 - (if asks_for_indices(fvf) {
        1int
    } else {
        0
    })
}

/// Whether a vertex format asks for an element, and in this type.
pub open spec fn asked_for(fvf: u32, s: Semantic) -> bool {
    let pos = fvf & 0x0e;
    let blends = pos == 6 || pos == 8 || pos == 10 || pos == 12 || pos == 14;
    if s.usage == 0 {
        &&& s.usage_index == 0
        &&& pos == 2 || blends
        &&& s.type_ == (if pos == 2 && fvf & 0x4002 == 0x4002 {
            3u8
        } else {
            2u8
        })
    } else if s.usage == 9 {
        s.usage_index == 0 && pos == 4 && s.type_ == 3
    } else if s.usage == 1 {
        &&& s.usage_index == 0
        &&& blends
        &&& weights_asked_for(fvf) > 0
        &&& if pos == 8 && fvf & 0x8000 != 0 {
            s.type_ == 4
        } else {
            s.type_ == weights_asked_for(fvf) - 1
        }
    } else if s.usage == 2 {
        &&& s.usage_index == 0
        &&& blends
        &&& asks_for_indices(fvf)
        &&& s.type_ == (if fvf & 0x8000 != 0 && pos != 8 {
            4u8
        } else if fvf & 0x8000 != 0 || fvf & 0x1000 != 0 {
            5u8
        } else {
            0u8
        })
    } else if s.usage == 3 {
        s.usage_index == 0 && fvf & 0x10 != 0 && s.type_ == 2
    } else if s.usage == 4 {
        s.usage_index == 0 && fvf & 0x20 != 0 && s.type_ == 0
    } else if s.usage == 10 {
        &&& s.type_ == 4
        &&& (s.usage_index == 0 && fvf & 0x40 != 0) || (s.usage_index == 1 && fvf & 0x80 != 0)
    } else {
        &&& s.usage == 5
        &&& s.usage_index < sets_asked_for(fvf)
        &&& ({
            let size = (fvf >> ((16 + 2 * s.usage_index) as u32)) & 3;
            s.type_ == (if size == 0 {
                1u8
            } else if size == 1 {
                2u8
            } else if size == 2 {
                3u8
            } else {
                0u8
            })
        })
    }
}

spec fn orderly(fvf: u32, s: Seq<Semantic>, from: int, end: int) -> bool {
    &&& forall|i: int|
        0 <= i < s.len() ==> asked_for(fvf, #[trigger] s[i]) && from <= rank(s[i]) < end
    &&& forall|i: int, j: int| 0 <= i < j < s.len() ==> rank(#[trigger] s[i]) < rank(#[trigger] s[j])
}

proof fn orderly_together(
    fvf: u32,
    s: Seq<Semantic>,
    t: Seq<Semantic>,
    from: int,
    mid: int,
    end: int,
)
    requires
        orderly(fvf, s, from, mid),
        orderly(fvf, t, mid, end),
        from <= mid <= end,
    ensures
        orderly(fvf, s + t, from, end),
{
    let u = s + t;
    assert forall|i: int| 0 <= i < u.len() implies asked_for(fvf, #[trigger] u[i]) && from <= rank(
        u[i],
    ) < end by {
        if i < s.len() {
            assert(u[i] == s[i]);
        } else {
            assert(u[i] == t[i - s.len()]);
        }
    }
    assert forall|i: int, j: int| 0 <= i < j < u.len() implies rank(#[trigger] u[i]) < rank(
        #[trigger] u[j],
    ) by {
        if j < s.len() {
            assert(u[i] == s[i] && u[j] == s[j]);
        } else if i < s.len() {
            assert(u[i] == s[i] && u[j] == t[j - s.len()]);
        } else {
            assert(u[i] == t[i - s.len()] && u[j] == t[j - s.len()]);
        }
    }
}

/// A vertex holds exactly what its vertex format asks for: every element is asked for, in its
/// type, they stand in the order of the format, none twice, and there are as many as the
/// format has parts.
pub proof fn vertices_hold_what_their_format_asks_for(fvf: u32)
    ensures
        ({
            let s = fvf_semantics(fvf);
            let pos = fvf & 0x0e;
            let bit = |b: u32|
                if fvf & b != 0 {
                    1int
                } else {
                    0
                };
            let rest = bit(0x10) + bit(0x20) + bit(0x40) + bit(0x80) + sets_asked_for(fvf);
            &&& forall|i: int| 0 <= i < s.len() ==> asked_for(fvf, #[trigger] s[i])
            &&& forall|i: int, j: int|
                0 <= i < j < s.len() ==> rank(#[trigger] s[i]) < rank(#[trigger] s[j])
            &&& pos == 2 || pos == 4 ==> s.len() == 1 + rest
            &&& pos == 6 || pos == 8 || pos == 10 || pos == 12 || pos == 14 ==> s.len() == 1 + (
            if weights_asked_for(fvf) > 0 {
                1int
            } else {
                0
            }) + (if asks_for_indices(fvf) {
                1int
            } else {
                0
            }) + rest
        }),
{
    assert((fvf & 0xf00) >> 8 == fvf / 0x100 % 0x10) by (bit_vector);
    let p = position_semantics(fvf);
    let n = flagged(fvf, 0x10, 2, 3, 0);
    let z = flagged(fvf, 0x20, 0, 4, 0);
    let d = flagged(fvf, 0x40, 4, 10, 0);
    let e = flagged(fvf, 0x80, 4, 10, 1);
    let c = coord_semantics(fvf, coord_set_count(fvf));
    assert(orderly(fvf, p, 0, 3)) by {
        let pos = fvf & 0x0e;
        if pos == 2 || pos == 4 || pos == 6 || pos == 8 || pos == 10 || pos == 12 || pos == 14 {
            let b = beta_semantics(fvf);
            assert(b.len() <= 2);
        }
    }
    assert(orderly(fvf, n, 3, 4));
    assert(orderly(fvf, z, 4, 5));
    assert(orderly(fvf, d, 5, 6));
    assert(orderly(fvf, e, 6, 7));
    assert(orderly(fvf, c, 7, 15)) by {
        assert forall|i: int| 0 <= i < c.len() implies asked_for(fvf, #[trigger] c[i]) && rank(c[i])
            == 7 + i by {
            assert(c[i].usage_index == i);
            let x = fvf >> ((16 + 2 * i) as u32);
            assert(x & 3 < 4) by (bit_vector);
        }
    }
    orderly_together(fvf, p, n, 0, 3, 4);
    orderly_together(fvf, p + n, z, 0, 4, 5);
    orderly_together(fvf, p + n + z, d, 0, 5, 6);
    orderly_together(fvf, p + n + z + d, e, 0, 6, 7);
    orderly_together(fvf, p + n + z + d + e, c, 0, 7, 15);
    assert(leading_semantics(fvf) == p + n + z + d + e);
    assert(fvf_semantics(fvf) == p + n + z + d + e + c);
}

} // verus!
