//! Vertex formats and vertex declarations.

use crate::bits::{bit16, with_bit16, zero_has_no_bits};
use crate::d3d9::{
    D3DDECLMETHOD_DEFAULT, D3DDECLTYPE_D3DCOLOR, D3DDECLTYPE_DEC3N, D3DDECLTYPE_FLOAT1,
    D3DDECLTYPE_FLOAT16_2, D3DDECLTYPE_FLOAT16_4, D3DDECLTYPE_FLOAT2, D3DDECLTYPE_FLOAT3,
    D3DDECLTYPE_FLOAT4, D3DDECLTYPE_SHORT2, D3DDECLTYPE_SHORT2N, D3DDECLTYPE_SHORT4,
    D3DDECLTYPE_SHORT4N, D3DDECLTYPE_UBYTE4, D3DDECLTYPE_UBYTE4N, D3DDECLTYPE_UDEC3,
    D3DDECLTYPE_USHORT2N, D3DDECLTYPE_USHORT4N, D3DDECLUSAGE_BLENDINDICES,
    D3DDECLUSAGE_BLENDWEIGHT, D3DDECLUSAGE_COLOR, D3DDECLUSAGE_NORMAL, D3DDECLUSAGE_POSITION,
    D3DDECLUSAGE_POSITIONT, D3DDECLUSAGE_PSIZE, D3DDECLUSAGE_TEXCOORD, D3DDECL_END_STREAM,
    D3DFVF_DIFFUSE, D3DFVF_LASTBETA_D3DCOLOR, D3DFVF_LASTBETA_UBYTE4, D3DFVF_NORMAL,
    D3DFVF_POSITION_MASK, D3DFVF_PSIZE, D3DFVF_SPECULAR, D3DFVF_TEXCOUNT_MASK,
    D3DFVF_TEXCOUNT_SHIFT, D3DFVF_TEXTUREFORMAT1, D3DFVF_TEXTUREFORMAT3, D3DFVF_TEXTUREFORMAT4,
    D3DFVF_XYZ, D3DFVF_XYZB1, D3DFVF_XYZB2, D3DFVF_XYZB3, D3DFVF_XYZB4, D3DFVF_XYZB5,
    D3DFVF_XYZRHW, D3DFVF_XYZW, D3DVERTEXELEMENT9, MAX_STREAMS,
};
use crate::dxso::ff::{attr_index, ff_attr_index_for_semantic};
use crate::dxso::DeclUsage;
use crate::metal::{VertexAttrDesc, VertexFormat};
use vstd::prelude::*;
use xxhash_rust::xxh3::Xxh3;

verus! {

/// What an element of a type becomes, and how many bytes it takes; a type without a
/// counterpart is invalid and takes none.
pub open spec fn decl_format(ty: u8) -> (VertexFormat, u32) {
    if ty == D3DDECLTYPE_FLOAT1 {
        (VertexFormat::Float, 4u32)
    } else if ty == D3DDECLTYPE_FLOAT2 {
        (VertexFormat::Float2, 8u32)
    } else if ty == D3DDECLTYPE_FLOAT3 {
        (VertexFormat::Float3, 12u32)
    } else if ty == D3DDECLTYPE_FLOAT4 {
        (VertexFormat::Float4, 16u32)
    } else if ty == D3DDECLTYPE_D3DCOLOR {
        (VertexFormat::UChar4NormalizedBgra, 4u32)
    } else if ty == D3DDECLTYPE_UBYTE4 {
        (VertexFormat::UChar4, 4u32)
    } else if ty == D3DDECLTYPE_SHORT2 {
        (VertexFormat::Short2, 4u32)
    } else if ty == D3DDECLTYPE_SHORT4 {
        (VertexFormat::Short4, 8u32)
    } else if ty == D3DDECLTYPE_UBYTE4N {
        (VertexFormat::UChar4Normalized, 4u32)
    } else if ty == D3DDECLTYPE_SHORT2N {
        (VertexFormat::Short2Normalized, 4u32)
    } else if ty == D3DDECLTYPE_SHORT4N {
        (VertexFormat::Short4Normalized, 8u32)
    } else if ty == D3DDECLTYPE_USHORT2N {
        (VertexFormat::UShort2Normalized, 4u32)
    } else if ty == D3DDECLTYPE_USHORT4N {
        (VertexFormat::UShort4Normalized, 8u32)
    } else if ty == D3DDECLTYPE_FLOAT16_2 {
        (VertexFormat::Half2, 4u32)
    } else if ty == D3DDECLTYPE_FLOAT16_4 {
        (VertexFormat::Half4, 8u32)
    } else {
        (VertexFormat::Invalid, 0u32)
    }
}

/// What an element of a type becomes, and how many bytes it takes.
pub fn decl_type_to_metal_format(ty: u8) -> (r: (VertexFormat, u32))
    ensures
        r == decl_format(ty),
{
    if ty == D3DDECLTYPE_FLOAT1 {
        (VertexFormat::Float, 4)
    } else if ty == D3DDECLTYPE_FLOAT2 {
        (VertexFormat::Float2, 8)
    } else if ty == D3DDECLTYPE_FLOAT3 {
        (VertexFormat::Float3, 12)
    } else if ty == D3DDECLTYPE_FLOAT4 {
        (VertexFormat::Float4, 16)
    } else if ty == D3DDECLTYPE_D3DCOLOR {
        (VertexFormat::UChar4NormalizedBgra, 4)
    } else if ty == D3DDECLTYPE_UBYTE4 {
        (VertexFormat::UChar4, 4)
    } else if ty == D3DDECLTYPE_SHORT2 {
        (VertexFormat::Short2, 4)
    } else if ty == D3DDECLTYPE_SHORT4 {
        (VertexFormat::Short4, 8)
    } else if ty == D3DDECLTYPE_UBYTE4N {
        (VertexFormat::UChar4Normalized, 4)
    } else if ty == D3DDECLTYPE_SHORT2N {
        (VertexFormat::Short2Normalized, 4)
    } else if ty == D3DDECLTYPE_SHORT4N {
        (VertexFormat::Short4Normalized, 8)
    } else if ty == D3DDECLTYPE_USHORT2N {
        (VertexFormat::UShort2Normalized, 4)
    } else if ty == D3DDECLTYPE_USHORT4N {
        (VertexFormat::UShort4Normalized, 8)
    } else if ty == D3DDECLTYPE_FLOAT16_2 {
        (VertexFormat::Half2, 4)
    } else if ty == D3DDECLTYPE_FLOAT16_4 {
        (VertexFormat::Half4, 8)
    } else {
        (VertexFormat::Invalid, 0)
    }
}

/// How many components a type has.
pub open spec fn decl_type_dim_spec(ty: u8) -> u8 {
    if ty == D3DDECLTYPE_FLOAT1 {
        1
    } else if ty == D3DDECLTYPE_FLOAT2 || ty == D3DDECLTYPE_SHORT2 || ty == D3DDECLTYPE_SHORT2N
        || ty == D3DDECLTYPE_USHORT2N || ty == D3DDECLTYPE_FLOAT16_2 {
        2
    } else if ty == D3DDECLTYPE_FLOAT3 || ty == D3DDECLTYPE_UDEC3 || ty == D3DDECLTYPE_DEC3N {
        3
    } else if ty == D3DDECLTYPE_FLOAT4 || ty == D3DDECLTYPE_D3DCOLOR || ty == D3DDECLTYPE_UBYTE4
        || ty == D3DDECLTYPE_SHORT4 || ty == D3DDECLTYPE_UBYTE4N || ty == D3DDECLTYPE_SHORT4N
        || ty == D3DDECLTYPE_USHORT4N || ty == D3DDECLTYPE_FLOAT16_4 {
        4
    } else {
        0
    }
}

fn decl_type_dim(ty: u8) -> (r: u8)
    ensures
        r == decl_type_dim_spec(ty),
{
    if ty == D3DDECLTYPE_FLOAT1 {
        1
    } else if ty == D3DDECLTYPE_FLOAT2 || ty == D3DDECLTYPE_SHORT2 || ty == D3DDECLTYPE_SHORT2N
        || ty == D3DDECLTYPE_USHORT2N || ty == D3DDECLTYPE_FLOAT16_2 {
        2
    } else if ty == D3DDECLTYPE_FLOAT3 || ty == D3DDECLTYPE_UDEC3 || ty == D3DDECLTYPE_DEC3N {
        3
    } else if ty == D3DDECLTYPE_FLOAT4 || ty == D3DDECLTYPE_D3DCOLOR || ty == D3DDECLTYPE_UBYTE4
        || ty == D3DDECLTYPE_SHORT4 || ty == D3DDECLTYPE_UBYTE4N || ty == D3DDECLTYPE_SHORT4N
        || ty == D3DDECLTYPE_USHORT4N || ty == D3DDECLTYPE_FLOAT16_4 {
        4
    } else {
        0
    }
}

/// What an element holds: its type, what it is for, and which of its kind it is.
#[derive(Clone, Copy, Debug, PartialEq, Eq, Structural)]
pub struct Semantic {
    pub type_: u8,
    pub usage: u8,
    pub usage_index: u8,
}

/// How many bytes the first `n` semantics take.
pub open spec fn size_of_first(s: Seq<Semantic>, n: int) -> int
    decreases n,
{
    if n <= 0 {
        0
    } else {
        size_of_first(s, n - 1) + decl_format(s[n - 1].type_).1
    }
}

/// Elements for semantics, one right behind the other in the first stream.
pub open spec fn laid_out(s: Seq<Semantic>) -> Seq<D3DVERTEXELEMENT9> {
    Seq::new(
        s.len(),
        |i: int|
            D3DVERTEXELEMENT9 {
                stream: 0,
                offset: size_of_first(s, i) as u16,
                type_: s[i].type_,
                method: D3DDECLMETHOD_DEFAULT,
                usage: s[i].usage,
                usage_index: s[i].usage_index,
            },
    )
}

/// The type of a beta that is not a weight: the last one when it is packed, or the fifth.
pub open spec fn last_beta_type(fvf: u32) -> Option<u8> {
    let pos = fvf & D3DFVF_POSITION_MASK;
    if fvf & D3DFVF_LASTBETA_D3DCOLOR != 0 {
        Some(
            if pos == D3DFVF_XYZB2 {
                D3DDECLTYPE_UBYTE4
            } else {
                D3DDECLTYPE_D3DCOLOR
            },
        )
    } else if fvf & D3DFVF_LASTBETA_UBYTE4 != 0 {
        Some(D3DDECLTYPE_UBYTE4)
    } else if pos == D3DFVF_XYZB5 {
        Some(D3DDECLTYPE_FLOAT1)
    } else {
        None
    }
}

/// How many betas a position with betas has.
pub open spec fn beta_count(pos: u32) -> int {
    (pos - D3DFVF_XYZB1) / 2 + 1
}

/// The type of `n` floats, four at the most.
pub open spec fn float_type(n: int) -> u8 {
    if n == 1 {
        D3DDECLTYPE_FLOAT1
    } else if n == 2 {
        D3DDECLTYPE_FLOAT2
    } else if n == 3 {
        D3DDECLTYPE_FLOAT3
    } else {
        D3DDECLTYPE_FLOAT4
    }
}

/// The semantics of the betas of a vertex format.
pub open spec fn beta_semantics(fvf: u32) -> Seq<Semantic> {
    let pos = fvf & D3DFVF_POSITION_MASK;
    let last = last_beta_type(fvf);
    let weights = beta_count(pos) - (if last is Some {
        1int
    } else {
        0
    });
    let weight_type = if pos == D3DFVF_XYZB2 && fvf & D3DFVF_LASTBETA_D3DCOLOR != 0 {
        D3DDECLTYPE_D3DCOLOR
    } else {
        float_type(weights)
    };
    (if weights > 0 {
        seq![Semantic { type_: weight_type, usage: D3DDECLUSAGE_BLENDWEIGHT, usage_index: 0 }]
    } else {
        Seq::empty()
    }) + (match last {
        Some(ty) => seq![Semantic { type_: ty, usage: D3DDECLUSAGE_BLENDINDICES, usage_index: 0 }],
        None => Seq::empty(),
    })
}

/// Whether a position code is one with betas.
pub open spec fn has_betas(pos: u32) -> bool {
    pos == D3DFVF_XYZB1 || pos == D3DFVF_XYZB2 || pos == D3DFVF_XYZB3 || pos == D3DFVF_XYZB4 || pos
        == D3DFVF_XYZB5
}

/// The semantics of the position of a vertex format.
pub open spec fn position_semantics(fvf: u32) -> Seq<Semantic> {
    let pos = fvf & D3DFVF_POSITION_MASK;
    if pos == D3DFVF_XYZ {
        seq![
            Semantic {
                type_: if fvf & D3DFVF_XYZW == D3DFVF_XYZW {
                    D3DDECLTYPE_FLOAT4
                } else {
                    D3DDECLTYPE_FLOAT3
                },
                usage: D3DDECLUSAGE_POSITION,
                usage_index: 0,
            },
        ]
    } else if has_betas(pos) {
        seq![
            Semantic {
                type_: D3DDECLTYPE_FLOAT3,
                usage: D3DDECLUSAGE_POSITION,
                usage_index: 0,
            },
        ] + beta_semantics(fvf)
    } else if pos == D3DFVF_XYZRHW {
        seq![
            Semantic {
                type_: D3DDECLTYPE_FLOAT4,
                usage: D3DDECLUSAGE_POSITIONT,
                usage_index: 0,
            },
        ]
    } else {
        Seq::empty()
    }
}

/// One semantic that is there only when a bit of the vertex format is set.
pub open spec fn flagged(fvf: u32, bit: u32, type_: u8, usage: u8, usage_index: u8) -> Seq<
    Semantic,
> {
    if fvf & bit != 0 {
        seq![Semantic { type_, usage, usage_index }]
    } else {
        Seq::empty()
    }
}

/// How many coordinate sets a vertex format has, eight at the most.
pub open spec fn coord_set_count(fvf: u32) -> int {
    let n = (fvf & D3DFVF_TEXCOUNT_MASK) >> D3DFVF_TEXCOUNT_SHIFT;
    if n < 8 {
        n as int
    } else {
        8
    }
}

/// The type of coordinate set `i` of a vertex format.
pub open spec fn coord_set_type(fvf: u32, i: int) -> u8 {
    let size = (fvf >> ((16 + 2 * i) as u32)) & 3;
    if size == D3DFVF_TEXTUREFORMAT1 {
        D3DDECLTYPE_FLOAT1
    } else if size == D3DFVF_TEXTUREFORMAT3 {
        D3DDECLTYPE_FLOAT3
    } else if size == D3DFVF_TEXTUREFORMAT4 {
        D3DDECLTYPE_FLOAT4
    } else {
        D3DDECLTYPE_FLOAT2
    }
}

/// The semantics of the first `n` coordinate sets of a vertex format.
pub open spec fn coord_semantics(fvf: u32, n: int) -> Seq<Semantic> {
    Seq::new(
        n as nat,
        |i: int|
            Semantic {
                type_: coord_set_type(fvf, i),
                usage: D3DDECLUSAGE_TEXCOORD,
                usage_index: i as u8,
            },
    )
}

/// Everything before the coordinate sets of a vertex format.
pub open spec fn leading_semantics(fvf: u32) -> Seq<Semantic> {
    position_semantics(fvf) + flagged(
        fvf,
        D3DFVF_NORMAL,
        D3DDECLTYPE_FLOAT3,
        D3DDECLUSAGE_NORMAL,
        0,
    ) + flagged(fvf, D3DFVF_PSIZE, D3DDECLTYPE_FLOAT1, D3DDECLUSAGE_PSIZE, 0) + flagged(
        fvf,
        D3DFVF_DIFFUSE,
        D3DDECLTYPE_D3DCOLOR,
        D3DDECLUSAGE_COLOR,
        0,
    ) + flagged(fvf, D3DFVF_SPECULAR, D3DDECLTYPE_D3DCOLOR, D3DDECLUSAGE_COLOR, 1)
}

/// What a vertex of a vertex format holds, in order.
pub open spec fn fvf_semantics(fvf: u32) -> Seq<Semantic> {
    leading_semantics(fvf) + coord_semantics(fvf, coord_set_count(fvf))
}

proof fn sizes_are_small(s: Seq<Semantic>, n: int)
    requires
        0 <= n,
    ensures
        0 <= size_of_first(s, n) <= 16 * n,
    decreases n,
{
    if n > 0 {
        sizes_are_small(s, n - 1);
    }
}

proof fn sizes_go_by_what_comes_before(s: Seq<Semantic>, t: Seq<Semantic>, n: int)
    requires
        0 <= n <= s.len(),
        n <= t.len(),
        forall|i: int| 0 <= i < n ==> s[i] == t[i],
    ensures
        size_of_first(s, n) == size_of_first(t, n),
    decreases n,
{
    if n > 0 {
        sizes_go_by_what_comes_before(s, t, n - 1);
    }
}

/// Elements in the making, one right behind the other.
struct Layout {
    elements: Vec<D3DVERTEXELEMENT9>,
    end: u16,
}

impl Layout {
    spec fn holds(self, s: Seq<Semantic>) -> bool {
        self.elements@ == laid_out(s) && self.end == size_of_first(s, s.len() as int)
    }

    fn push(&mut self, Ghost(s): Ghost<Seq<Semantic>>, type_: u8, usage: u8, usage_index: u8)
        requires
            old(self).holds(s),
            s.len() < 20,
        ensures
            final(self).holds(s.push(Semantic { type_, usage, usage_index })),
    {
        let ghost t = s.push(Semantic { type_, usage, usage_index });
        proof {
            sizes_are_small(s, s.len() as int);
            sizes_go_by_what_comes_before(s, t, s.len() as int);
            assert forall|i: int| 0 <= i <= s.len() implies size_of_first(s, i) == size_of_first(
                t,
                i,
            ) by {
                sizes_go_by_what_comes_before(s, t, i);
            }
        }
        self.elements.push(
            D3DVERTEXELEMENT9 {
                stream: 0,
                offset: self.end,
                type_,
                method: D3DDECLMETHOD_DEFAULT,
                usage,
                usage_index,
            },
        );
        self.end = self.end + decl_type_to_metal_format(type_).1 as u16;
        assert(self.elements@ =~= laid_out(t));
    }
}

fn push_flagged(
    layout: &mut Layout,
    Ghost(s): Ghost<Seq<Semantic>>,
    fvf: u32,
    bit: u32,
    type_: u8,
    usage: u8,
    usage_index: u8,
)
    requires
        old(layout).holds(s),
        s.len() < 20,
    ensures
        final(layout).holds(s + flagged(fvf, bit, type_, usage, usage_index)),
{
    if fvf & bit != 0 {
        layout.push(Ghost(s), type_, usage, usage_index);
        assert(s.push(Semantic { type_, usage, usage_index }) =~= s + flagged(
            fvf,
            bit,
            type_,
            usage,
            usage_index,
        ));
    } else {
        assert(s =~= s + flagged(fvf, bit, type_, usage, usage_index));
    }
}

fn beta_type(fvf: u32) -> (r: Option<u8>)
    ensures
        r == last_beta_type(fvf),
{
    let pos: u32 = fvf & D3DFVF_POSITION_MASK;
    if fvf & D3DFVF_LASTBETA_D3DCOLOR != 0 {
        if pos == D3DFVF_XYZB2 {
            Some(D3DDECLTYPE_UBYTE4)
        } else {
            Some(D3DDECLTYPE_D3DCOLOR)
        }
    } else if fvf & D3DFVF_LASTBETA_UBYTE4 != 0 {
        Some(D3DDECLTYPE_UBYTE4)
    } else if pos == D3DFVF_XYZB5 {
        Some(D3DDECLTYPE_FLOAT1)
    } else {
        None
    }
}

fn push_betas(layout: &mut Layout, Ghost(s): Ghost<Seq<Semantic>>, fvf: u32)
    requires
        old(layout).holds(s),
        s.len() < 10,
        has_betas(fvf & D3DFVF_POSITION_MASK),
    ensures
        final(layout).holds(s + beta_semantics(fvf)),
{
    let pos: u32 = fvf & D3DFVF_POSITION_MASK;
    let last: Option<u8> = beta_type(fvf);
    let betas: u32 = (pos - D3DFVF_XYZB1) / 2 + 1;
    let weights: u32 = if last.is_some() {
        betas - 1
    } else {
        betas
    };
    let ghost mut t = s;
    if weights > 0 {
        let ty: u8 = if pos == D3DFVF_XYZB2 && fvf & D3DFVF_LASTBETA_D3DCOLOR != 0 {
            D3DDECLTYPE_D3DCOLOR
        } else if weights == 1 {
            D3DDECLTYPE_FLOAT1
        } else if weights == 2 {
            D3DDECLTYPE_FLOAT2
        } else if weights == 3 {
            D3DDECLTYPE_FLOAT3
        } else {
            D3DDECLTYPE_FLOAT4
        };
        layout.push(Ghost(t), ty, D3DDECLUSAGE_BLENDWEIGHT, 0);
        proof {
            t = t.push(
                Semantic { type_: ty, usage: D3DDECLUSAGE_BLENDWEIGHT, usage_index: 0 },
            );
        }
    }
    if let Some(ty) = last {
        layout.push(Ghost(t), ty, D3DDECLUSAGE_BLENDINDICES, 0);
        proof {
            t = t.push(
                Semantic { type_: ty, usage: D3DDECLUSAGE_BLENDINDICES, usage_index: 0 },
            );
        }
    }
    assert(t =~= s + beta_semantics(fvf));
}

fn push_position(layout: &mut Layout, fvf: u32)
    requires
        old(layout).holds(Seq::empty()),
    ensures
        final(layout).holds(position_semantics(fvf)),
{
    let pos: u32 = fvf & D3DFVF_POSITION_MASK;
    let ghost none = Seq::<Semantic>::empty();
    if pos == D3DFVF_XYZ {
        let ty: u8 = if fvf & D3DFVF_XYZW == D3DFVF_XYZW {
            D3DDECLTYPE_FLOAT4
        } else {
            D3DDECLTYPE_FLOAT3
        };
        layout.push(Ghost(none), ty, D3DDECLUSAGE_POSITION, 0);
        assert(none.push(Semantic { type_: ty, usage: D3DDECLUSAGE_POSITION, usage_index: 0 })
            =~= position_semantics(fvf));
    } else if pos == D3DFVF_XYZB1 || pos == D3DFVF_XYZB2 || pos == D3DFVF_XYZB3 || pos
        == D3DFVF_XYZB4 || pos == D3DFVF_XYZB5 {
        layout.push(Ghost(none), D3DDECLTYPE_FLOAT3, D3DDECLUSAGE_POSITION, 0);
        let ghost s = none.push(
            Semantic { type_: D3DDECLTYPE_FLOAT3, usage: D3DDECLUSAGE_POSITION, usage_index: 0 },
        );
        push_betas(layout, Ghost(s), fvf);
        assert(s + beta_semantics(fvf) =~= position_semantics(fvf));
    } else if pos == D3DFVF_XYZRHW {
        layout.push(Ghost(none), D3DDECLTYPE_FLOAT4, D3DDECLUSAGE_POSITIONT, 0);
        assert(none.push(
            Semantic { type_: D3DDECLTYPE_FLOAT4, usage: D3DDECLUSAGE_POSITIONT, usage_index: 0 },
        ) =~= position_semantics(fvf));
    }
}

fn coord_type(fvf: u32, i: u32) -> (r: u8)
    requires
        i < 8,
    ensures
        r == coord_set_type(fvf, i as int),
{
    let size: u32 = (fvf >> (16 + 2 * i)) & 3;
    if size == D3DFVF_TEXTUREFORMAT1 {
        D3DDECLTYPE_FLOAT1
    } else if size == D3DFVF_TEXTUREFORMAT3 {
        D3DDECLTYPE_FLOAT3
    } else if size == D3DFVF_TEXTUREFORMAT4 {
        D3DDECLTYPE_FLOAT4
    } else {
        D3DDECLTYPE_FLOAT2
    }
}

/// The elements of a vertex format without a terminator, and how many bytes a vertex takes.
pub fn fvf_to_elements(fvf: u32) -> (r: (Vec<D3DVERTEXELEMENT9>, u32))
    ensures
        r.0@ == laid_out(fvf_semantics(fvf)),
        r.1 == size_of_first(fvf_semantics(fvf), fvf_semantics(fvf).len() as int),
{
    let mut layout: Layout = Layout { elements: Vec::new(), end: 0 };
    assert(layout.elements@ =~= laid_out(Seq::empty()));
    push_position(&mut layout, fvf);
    let ghost s0 = position_semantics(fvf);
    push_flagged(
        &mut layout,
        Ghost(s0),
        fvf,
        D3DFVF_NORMAL,
        D3DDECLTYPE_FLOAT3,
        D3DDECLUSAGE_NORMAL,
        0,
    );
    let ghost s1 = s0 + flagged(fvf, D3DFVF_NORMAL, D3DDECLTYPE_FLOAT3, D3DDECLUSAGE_NORMAL, 0);
    push_flagged(
        &mut layout,
        Ghost(s1),
        fvf,
        D3DFVF_PSIZE,
        D3DDECLTYPE_FLOAT1,
        D3DDECLUSAGE_PSIZE,
        0,
    );
    let ghost s2 = s1 + flagged(fvf, D3DFVF_PSIZE, D3DDECLTYPE_FLOAT1, D3DDECLUSAGE_PSIZE, 0);
    push_flagged(
        &mut layout,
        Ghost(s2),
        fvf,
        D3DFVF_DIFFUSE,
        D3DDECLTYPE_D3DCOLOR,
        D3DDECLUSAGE_COLOR,
        0,
    );
    let ghost s3 = s2 + flagged(fvf, D3DFVF_DIFFUSE, D3DDECLTYPE_D3DCOLOR, D3DDECLUSAGE_COLOR, 0);
    push_flagged(
        &mut layout,
        Ghost(s3),
        fvf,
        D3DFVF_SPECULAR,
        D3DDECLTYPE_D3DCOLOR,
        D3DDECLUSAGE_COLOR,
        1,
    );
    let ghost lead = leading_semantics(fvf);
    let count: u32 = (fvf & D3DFVF_TEXCOUNT_MASK) >> D3DFVF_TEXCOUNT_SHIFT;
    let sets: u32 = if count < 8 {
        count
    } else {
        8
    };
    let mut i: u32 = 0;
    assert(lead + coord_semantics(fvf, 0) =~= lead);
    while i < sets
        invariant
            i <= sets <= 8,
            lead.len() <= 7,
            layout.holds(lead + coord_semantics(fvf, i as int)),
        decreases sets - i,
    {
        let ty: u8 = coord_type(fvf, i);
        layout.push(
            Ghost(lead + coord_semantics(fvf, i as int)),
            ty,
            D3DDECLUSAGE_TEXCOORD,
            i as u8,
        );
        assert((lead + coord_semantics(fvf, i as int)).push(
            Semantic { type_: ty, usage: D3DDECLUSAGE_TEXCOORD, usage_index: i as u8 },
        ) =~= lead + coord_semantics(fvf, i + 1));
        i += 1;
    }
    (layout.elements, layout.end as u32)
}

/// Elements follow each other without a gap, and a vertex ends where the last of them does.
pub proof fn laid_out_elements_touch(s: Seq<Semantic>, i: int)
    requires
        0 <= i < s.len() <= 20,
    ensures
        laid_out(s)[i].offset + decl_format(s[i].type_).1 == size_of_first(s, i + 1),
        i + 1 < s.len() ==> laid_out(s)[i + 1].offset == laid_out(s)[i].offset + decl_format(
            s[i].type_,
        ).1,
{
    sizes_are_small(s, i);
    sizes_are_small(s, i + 1);
}

/// An input of a vertex shader and the register it comes in.
#[derive(Clone, Copy, Debug, PartialEq, Eq)]
pub struct InputSemantic {
    pub usage: DeclUsage,
    pub usage_index: u8,
    pub register_index: u16,
}

/// The register of the first input from `i` on that has a usage and an index.
pub open spec fn lookup_from(
    semantics: Seq<InputSemantic>,
    usage: u8,
    usage_index: u8,
    i: int,
) -> Option<u16>
    decreases semantics.len() - i,
{
    if i < 0 || i >= semantics.len() {
        None
    } else if semantics[i].usage.code_spec() == usage && semantics[i].usage_index == usage_index {
        Some(semantics[i].register_index)
    } else {
        lookup_from(semantics, usage, usage_index, i + 1)
    }
}

fn lookup_semantic(semantics: &[InputSemantic], usage: u8, usage_index: u8) -> (r: Option<u16>)
    ensures
        r == lookup_from(semantics@, usage, usage_index, 0),
{
    let mut i: usize = 0;
    while i < semantics.len()
        invariant
            i <= semantics@.len(),
            lookup_from(semantics@, usage, usage_index, 0) == lookup_from(
                semantics@,
                usage,
                usage_index,
                i as int,
            ),
        decreases semantics@.len() - i,
    {
        if semantics[i].usage.code() == usage && semantics[i].usage_index == usage_index {
            return Some(semantics[i].register_index);
        }
        i += 1;
    }
    None
}

/// Where the attributes of a vertex lie, and what the streams must hold.
pub struct ResolvedAttrs {
    pub attrs: Vec<VertexAttrDesc>,
    /// Per stream, where the last byte that is read ends.
    pub extents: [u32; 16],
    /// Bit per stream: something is read from it.
    pub used_streams: u16,
}

/// The attribute that an element feeds: the register of the shader's input with the
/// same meaning, or the fixed-function attribute where there is no shader.
pub open spec fn attribute_of(e: D3DVERTEXELEMENT9, semantics: Option<Seq<InputSemantic>>) -> Option<
    u16,
> {
    match semantics {
        Some(s) => lookup_from(s, e.usage, e.usage_index, 0),
        None => attr_index(e.usage, e.usage_index),
    }
}

/// Whether an element is on a stream that exists.
pub open spec fn on_stream(e: D3DVERTEXELEMENT9) -> bool {
    e.stream < MAX_STREAMS
}

/// Whether an element becomes an attribute.
pub open spec fn is_kept(e: D3DVERTEXELEMENT9, semantics: Option<Seq<InputSemantic>>) -> bool {
    on_stream(e) && !(decl_format(e.type_).0 is Invalid) && attribute_of(e, semantics) is Some
}

/// The attribute that an element becomes.
pub open spec fn attribute(e: D3DVERTEXELEMENT9, semantics: Option<Seq<InputSemantic>>) -> VertexAttrDesc {
    VertexAttrDesc {
        attr_index: attribute_of(e, semantics)->0 as u32,
        buffer_index: e.stream as u32,
        offset: e.offset as u32,
        format: decl_format(e.type_).0,
    }
}

/// The attributes that the first `n` elements become, in order.
pub open spec fn attributes(
    elements: Seq<D3DVERTEXELEMENT9>,
    semantics: Option<Seq<InputSemantic>>,
    n: int,
) -> Seq<VertexAttrDesc>
    decreases n,
{
    if n <= 0 {
        Seq::empty()
    } else if is_kept(elements[n - 1], semantics) {
        attributes(elements, semantics, n - 1).push(attribute(elements[n - 1], semantics))
    } else {
        attributes(elements, semantics, n - 1)
    }
}

/// Whether an element becomes an attribute in a stream.
pub open spec fn feeds(
    e: D3DVERTEXELEMENT9,
    semantics: Option<Seq<InputSemantic>>,
    stream: int,
) -> bool {
    is_kept(e, semantics) && e.stream == stream
}

/// Where the last attribute ends that the first `n` elements have in a stream.
pub open spec fn extent(
    elements: Seq<D3DVERTEXELEMENT9>,
    semantics: Option<Seq<InputSemantic>>,
    stream: int,
    n: int,
) -> int
    decreases n,
{
    if n <= 0 {
        0
    } else {
        let before = extent(elements, semantics, stream, n - 1);
        let e = elements[n - 1];
        let end = e.offset + decl_format(e.type_).1;
        if feeds(e, semantics, stream) && end > before {
            end
        } else {
            before
        }
    }
}

/// What the attributes of elements come to.
pub open spec fn resolved(
    elements: Seq<D3DVERTEXELEMENT9>,
    semantics: Option<Seq<InputSemantic>>,
    r: ResolvedAttrs,
) -> bool {
    &&& r.attrs@ == attributes(elements, semantics, elements.len() as int)
    &&& forall|s: int|
        0 <= s < 16 ==> #[trigger] r.extents@[s] == extent(
            elements,
            semantics,
            s,
            elements.len() as int,
        )
    &&& forall|s: int|
        0 <= s < 16 ==> (#[trigger] bit16(r.used_streams, s) <==> exists|i: int|
            0 <= i < elements.len() && feeds(#[trigger] elements[i], semantics, s))
}

fn resolve_attrs(elements: &[D3DVERTEXELEMENT9], semantics: Option<&[InputSemantic]>) -> (r:
    ResolvedAttrs)
    ensures
        resolved(
            elements@,
            match semantics {
                Some(s) => Some(s@),
                None => None,
            },
            r,
        ),
{
    let ghost sem: Option<Seq<InputSemantic>> = match semantics {
        Some(s) => Some(s@),
        None => None,
    };
    let mut attrs: Vec<VertexAttrDesc> = Vec::new();
    let mut extents: [u32; 16] = [0; 16];
    let mut used_streams: u16 = 0;
    proof {
        zero_has_no_bits();
    }
    let mut i: usize = 0;
    while i < elements.len()
        invariant
            i <= elements@.len(),
            sem == (match semantics {
                Some(s) => Some(s@),
                None => None::<Seq<InputSemantic>>,
            }),
            attrs@ == attributes(elements@, sem, i as int),
            forall|s: int|
                0 <= s < 16 ==> #[trigger] extents@[s] == extent(elements@, sem, s, i as int),
            forall|s: int|
                0 <= s < 16 ==> (#[trigger] bit16(used_streams, s) <==> exists|j: int|
                    0 <= j < i && feeds(#[trigger] elements@[j], sem, s)),
        decreases elements@.len() - i,
    {
        let e: D3DVERTEXELEMENT9 = elements[i];
        let (format, size): (VertexFormat, u32) = decl_type_to_metal_format(e.type_);
        let register: Option<u16> = match semantics {
            Some(s) => lookup_semantic(s, e.usage, e.usage_index),
            None => ff_attr_index_for_semantic(e.usage, e.usage_index),
        };
        let ghost before = used_streams;
        let ghost kept = is_kept(elements@[i as int], sem);
        if (e.stream as u32) < MAX_STREAMS && format != VertexFormat::Invalid {
            if let Some(reg) = register {
                attrs.push(
                    VertexAttrDesc {
                        attr_index: reg as u32,
                        buffer_index: e.stream as u32,
                        offset: e.offset as u32,
                        format,
                    },
                );
                used_streams = with_bit16(used_streams, e.stream as u32);
                let end: u32 = e.offset as u32 + size;
                if end > extents[e.stream as usize] {
                    extents[e.stream as usize] = end;
                }
            }
        }
        proof {
            assert forall|s: int| 0 <= s < 16 implies (#[trigger] bit16(used_streams, s)
                <==> exists|j: int| 0 <= j < i + 1 && feeds(#[trigger] elements@[j], sem, s)) by {
                assert(bit16(before, s) <==> exists|j: int|
                    0 <= j < i && feeds(#[trigger] elements@[j], sem, s));
                if feeds(elements@[i as int], sem, s) {
                    assert(bit16(used_streams, s));
                } else {
                    assert(bit16(used_streams, s) == bit16(before, s));
                }
            }
        }
        i += 1;
    }
    ResolvedAttrs { attrs, extents, used_streams }
}

/// The attributes of elements for a shader with given inputs. Elements that no input
/// asks for are left out.
pub fn resolve_attrs_for_vs(elements: &[D3DVERTEXELEMENT9], semantics: &[InputSemantic]) -> (r:
    ResolvedAttrs)
    ensures
        resolved(elements@, Some(semantics@), r),
{
    resolve_attrs(elements, Some(semantics))
}

/// The attributes of elements for fixed-function shaders.
pub fn resolve_attrs_for_ff(elements: &[D3DVERTEXELEMENT9]) -> (r: ResolvedAttrs)
    ensures
        resolved(elements@, None, r),
{
    resolve_attrs(elements, None)
}

/// What is read from a stream lies within its extent.
pub proof fn attributes_lie_within_their_streams(
    elements: Seq<D3DVERTEXELEMENT9>,
    semantics: Option<Seq<InputSemantic>>,
    n: int,
    i: int,
)
    requires
        0 <= i < n <= elements.len(),
        is_kept(elements[i], semantics),
    ensures
        elements[i].offset + decl_format(elements[i].type_).1 <= extent(
            elements,
            semantics,
            elements[i].stream as int,
            n,
        ),
    decreases n,
{
    if i < n - 1 {
        attributes_lie_within_their_streams(elements, semantics, n - 1, i);
    }
}

/// Elements that become no attribute have no influence on the attributes.
pub proof fn unread_elements_do_not_matter(
    elements: Seq<D3DVERTEXELEMENT9>,
    semantics: Option<Seq<InputSemantic>>,
    e: D3DVERTEXELEMENT9,
    stream: int,
)
    requires
        !is_kept(e, semantics),
    ensures
        attributes(elements.push(e), semantics, elements.len() as int + 1) == attributes(
            elements,
            semantics,
            elements.len() as int,
        ),
        extent(elements.push(e), semantics, stream, elements.len() as int + 1) == extent(
            elements,
            semantics,
            stream,
            elements.len() as int,
        ),
{
    leading_attributes_agree(elements, elements.push(e), semantics, stream, elements.len() as int);
}

proof fn leading_attributes_agree(
    a: Seq<D3DVERTEXELEMENT9>,
    b: Seq<D3DVERTEXELEMENT9>,
    semantics: Option<Seq<InputSemantic>>,
    stream: int,
    n: int,
)
    requires
        n <= a.len(),
        n <= b.len(),
        forall|i: int| 0 <= i < n ==> a[i] == b[i],
    ensures
        attributes(a, semantics, n) == attributes(b, semantics, n),
        extent(a, semantics, stream, n) == extent(b, semantics, stream, n),
    decreases n,
{
    if n > 0 {
        leading_attributes_agree(a, b, semantics, stream, n - 1);
    }
}

/// Which elements a vertex has.
#[derive(Clone, Copy, Debug, PartialEq, Eq, Structural)]
pub struct FfVsLayoutFlags {
    pub has_normal: bool,
    pub has_color0: bool,
    pub has_color1: bool,
    pub has_rhw: bool,
    pub declared_indices: bool,
    pub has_psize: bool,
}

impl FfVsLayoutFlags {
    /// No element.
    pub open spec fn none_spec() -> FfVsLayoutFlags {
        FfVsLayoutFlags {
            has_normal: false,
            has_color0: false,
            has_color1: false,
            has_rhw: false,
            declared_indices: false,
            has_psize: false,
        }
    }

    /// No element.
    pub fn none() -> (r: FfVsLayoutFlags)
        ensures
            r == Self::none_spec(),
    {
        FfVsLayoutFlags {
            has_normal: false,
            has_color0: false,
            has_color1: false,
            has_rhw: false,
            declared_indices: false,
            has_psize: false,
        }
    }
}

/// What the fixed-function vertex shader needs to know of a vertex declaration.
#[derive(Clone, Copy)]
pub struct FfVsLayout {
    pub flags: FfVsLayoutFlags,
    /// How many coordinate sets there are.
    pub tex_coord_count: u8,
    /// Per coordinate set: how many components it has, zero when there is no such set.
    pub tex_coord_dims: [u8; 8],
    /// How many blend weights there are.
    pub declared_weights_count: u8,
}

impl Default for FfVsLayout {
    fn default() -> (r: FfVsLayout)
        ensures
            r.flags == FfVsLayoutFlags::none_spec(),
            r.tex_coord_count == 0,
            forall|i: int| 0 <= i < 8 ==> r.tex_coord_dims@[i] == 0,
            r.declared_weights_count == 0,
    {
        FfVsLayout {
            flags: FfVsLayoutFlags::none(),
            tex_coord_count: 0,
            tex_coord_dims: [0; 8],
            declared_weights_count: 0,
        }
    }
}

impl FfVsLayout {
    pub fn has_normal(&self) -> (r: bool)
        ensures
            r == self.flags.has_normal,
    {
        self.flags.has_normal
    }

    pub fn has_psize(&self) -> (r: bool)
        ensures
            r == self.flags.has_psize,
    {
        self.flags.has_psize
    }

    pub fn has_color0(&self) -> (r: bool)
        ensures
            r == self.flags.has_color0,
    {
        self.flags.has_color0
    }

    pub fn has_color1(&self) -> (r: bool)
        ensures
            r == self.flags.has_color1,
    {
        self.flags.has_color1
    }

    pub fn has_rhw(&self) -> (r: bool)
        ensures
            r == self.flags.has_rhw,
    {
        self.flags.has_rhw
    }

    pub fn declared_indices(&self) -> (r: bool)
        ensures
            r == self.flags.declared_indices,
    {
        self.flags.declared_indices
    }
}

/// Whether one of the first `n` elements has a usage.
pub open spec fn declares(elements: Seq<D3DVERTEXELEMENT9>, usage: u8, n: int) -> bool {
    exists|i: int| 0 <= i < n && on_stream(#[trigger] elements[i]) && elements[i].usage == usage
}

/// Whether one of the first `n` elements has a usage and an index.
pub open spec fn declares_at(
    elements: Seq<D3DVERTEXELEMENT9>,
    usage: u8,
    usage_index: u8,
    n: int,
) -> bool {
    exists|i: int|
        0 <= i < n && on_stream(#[trigger] elements[i]) && elements[i].usage == usage
            && elements[i].usage_index == usage_index
}

/// One more than the highest coordinate set among the first `n` elements.
pub open spec fn coord_set_end(elements: Seq<D3DVERTEXELEMENT9>, n: int) -> int
    decreases n,
{
    if n <= 0 {
        0
    } else {
        let before = coord_set_end(elements, n - 1);
        let e = elements[n - 1];
        if on_stream(e) && e.usage == D3DDECLUSAGE_TEXCOORD && e.usage_index + 1 > before {
            e.usage_index + 1
        } else {
            before
        }
    }
}

/// How many components coordinate set `set` has among the first `n` elements; the last
/// element for it counts.
pub open spec fn coord_set_dim(elements: Seq<D3DVERTEXELEMENT9>, set: int, n: int) -> u8
    decreases n,
{
    if n <= 0 {
        0
    } else {
        let e = elements[n - 1];
        if on_stream(e) && e.usage == D3DDECLUSAGE_TEXCOORD && e.usage_index == set {
            decl_type_dim_spec(e.type_)
        } else {
            coord_set_dim(elements, set, n - 1)
        }
    }
}

/// How many blend weights a type holds.
pub open spec fn weights_of_type(type_: u8) -> u8 {
    if type_ == D3DDECLTYPE_FLOAT1 {
        1
    } else if type_ == D3DDECLTYPE_FLOAT2 {
        2
    } else if type_ == D3DDECLTYPE_FLOAT3 {
        3
    } else {
        4
    }
}

/// How many blend weights there are among the first `n` elements; the last element for
/// them counts.
pub open spec fn weight_count(elements: Seq<D3DVERTEXELEMENT9>, n: int) -> u8
    decreases n,
{
    if n <= 0 {
        0
    } else {
        let e = elements[n - 1];
        if on_stream(e) && e.usage == D3DDECLUSAGE_BLENDWEIGHT {
            weights_of_type(e.type_)
        } else {
            weight_count(elements, n - 1)
        }
    }
}

/// The elements that a vertex has among the first `n`.
pub open spec fn layout_flags(elements: Seq<D3DVERTEXELEMENT9>, n: int) -> FfVsLayoutFlags {
    FfVsLayoutFlags {
        has_normal: declares(elements, D3DDECLUSAGE_NORMAL, n),
        has_color0: declares_at(elements, D3DDECLUSAGE_COLOR, 0, n),
        has_color1: declares_at(elements, D3DDECLUSAGE_COLOR, 1, n),
        has_rhw: declares(elements, D3DDECLUSAGE_POSITIONT, n),
        declared_indices: declares(elements, D3DDECLUSAGE_BLENDINDICES, n),
        has_psize: declares(elements, D3DDECLUSAGE_PSIZE, n),
    }
}

/// The smaller of a number and eight.
pub open spec fn at_most_eight(n: int) -> int {
    if n <= 8 {
        n
    } else {
        8
    }
}

proof fn flags_step(elements: Seq<D3DVERTEXELEMENT9>, usage: u8, usage_index: u8, i: int)
    requires
        0 <= i < elements.len(),
    ensures
        declares(elements, usage, i + 1) == (declares(elements, usage, i) || (on_stream(
            elements[i],
        ) && elements[i].usage == usage)),
        declares_at(elements, usage, usage_index, i + 1) == (declares_at(
            elements,
            usage,
            usage_index,
            i,
        ) || (on_stream(elements[i]) && elements[i].usage == usage && elements[i].usage_index
            == usage_index)),
{
}

/// What the fixed-function vertex shader needs to know of a vertex declaration.
pub fn ff_vs_layout_from_elements(elements: &[D3DVERTEXELEMENT9]) -> (r: FfVsLayout)
    ensures
        r.flags == layout_flags(elements@, elements@.len() as int),
        r.tex_coord_count == at_most_eight(coord_set_end(elements@, elements@.len() as int)),
        forall|s: int|
            0 <= s < 8 ==> #[trigger] r.tex_coord_dims@[s] == coord_set_dim(
                elements@,
                s,
                elements@.len() as int,
            ),
        r.declared_weights_count == weight_count(elements@, elements@.len() as int),
{
    let mut flags: FfVsLayoutFlags = FfVsLayoutFlags::none();
    let mut end: u32 = 0;
    let mut dims: [u8; 8] = [0; 8];
    let mut weights: u8 = 0;
    let mut i: usize = 0;
    while i < elements.len()
        invariant
            i <= elements@.len(),
            flags == layout_flags(elements@, i as int),
            end == coord_set_end(elements@, i as int),
            end <= 256,
            forall|s: int|
                0 <= s < 8 ==> #[trigger] dims@[s] == coord_set_dim(elements@, s, i as int),
            weights == weight_count(elements@, i as int),
        decreases elements@.len() - i,
    {
        let e: D3DVERTEXELEMENT9 = elements[i];
        proof {
            flags_step(elements@, D3DDECLUSAGE_NORMAL, 0, i as int);
            flags_step(elements@, D3DDECLUSAGE_COLOR, 0, i as int);
            flags_step(elements@, D3DDECLUSAGE_COLOR, 1, i as int);
            flags_step(elements@, D3DDECLUSAGE_POSITIONT, 0, i as int);
            flags_step(elements@, D3DDECLUSAGE_BLENDINDICES, 0, i as int);
            flags_step(elements@, D3DDECLUSAGE_PSIZE, 0, i as int);
        }
        if (e.stream as u32) < MAX_STREAMS {
            if e.usage == D3DDECLUSAGE_NORMAL {
                flags.has_normal = true;
            } else if e.usage == D3DDECLUSAGE_COLOR {
                if e.usage_index == 0 {
                    flags.has_color0 = true;
                } else if e.usage_index == 1 {
                    flags.has_color1 = true;
                }
            } else if e.usage == D3DDECLUSAGE_TEXCOORD {
                if e.usage_index as u32 + 1 > end {
                    end = e.usage_index as u32 + 1;
                }
                if e.usage_index < 8 {
                    dims[e.usage_index as usize] = decl_type_dim(e.type_);
                }
            } else if e.usage == D3DDECLUSAGE_POSITIONT {
                flags.has_rhw = true;
            } else if e.usage == D3DDECLUSAGE_BLENDWEIGHT {
                weights = if e.type_ == D3DDECLTYPE_FLOAT1 {
                    1
                } else if e.type_ == D3DDECLTYPE_FLOAT2 {
                    2
                } else if e.type_ == D3DDECLTYPE_FLOAT3 {
                    3
                } else {
                    4
                };
            } else if e.usage == D3DDECLUSAGE_BLENDINDICES {
                flags.declared_indices = true;
            } else if e.usage == D3DDECLUSAGE_PSIZE {
                flags.has_psize = true;
            }
        }
        i += 1;
    }
    FfVsLayout {
        flags,
        tex_coord_count: if end <= 8 {
            end as u8
        } else {
            8
        },
        tex_coord_dims: dims,
        declared_weights_count: weights,
    }
}

/// The digest that a fresh hasher of the XXH3 family gives for bytes.
pub uninterp spec fn xxh3_digest(bytes: Seq<u8>) -> u64;

/// Calls `xxhash_rust::xxh3::Xxh3`: a fresh hasher, one `update`, then `digest`. What
/// it computes is given a name; the claim is that it depends on the bytes alone.
#[verifier::external_body]
fn hash_bytes(bytes: &[u8]) -> (r: u64)
    ensures
        r == xxh3_digest(bytes@),
{
    let mut h = Xxh3::new();
    h.update(bytes);
    h.digest()
}

/// The bytes of an element: stream and offset with the low byte first, then the rest.
pub open spec fn element_bytes(e: D3DVERTEXELEMENT9) -> Seq<u8> {
    seq![
        (e.stream % 0x100) as u8,
        (e.stream / 0x100) as u8,
        (e.offset % 0x100) as u8,
        (e.offset / 0x100) as u8,
        e.type_,
        e.method,
        e.usage,
        e.usage_index,
    ]
}

/// The bytes of the first `n` elements, one after the other.
pub open spec fn elements_bytes(elements: Seq<D3DVERTEXELEMENT9>, n: int) -> Seq<u8>
    decreases n,
{
    if n <= 0 {
        Seq::empty()
    } else {
        elements_bytes(elements, n - 1) + element_bytes(elements[n - 1])
    }
}

/// A hash of elements, which depends on them alone.
pub fn hash_elements(elements: &[D3DVERTEXELEMENT9]) -> (r: u64)
    ensures
        r == xxh3_digest(elements_bytes(elements@, elements@.len() as int)),
{
    let mut bytes: Vec<u8> = Vec::new();
    let mut i: usize = 0;
    while i < elements.len()
        invariant
            i <= elements@.len(),
            bytes@ == elements_bytes(elements@, i as int),
        decreases elements@.len() - i,
    {
        let e: D3DVERTEXELEMENT9 = elements[i];
        bytes.push((e.stream % 0x100) as u8);
        bytes.push((e.stream / 0x100) as u8);
        bytes.push((e.offset % 0x100) as u8);
        bytes.push((e.offset / 0x100) as u8);
        bytes.push(e.type_);
        bytes.push(e.method);
        bytes.push(e.usage);
        bytes.push(e.usage_index);
        assert(bytes@ =~= elements_bytes(elements@, i as int) + element_bytes(e));
        i += 1;
    }
    hash_bytes(bytes.as_slice())
}

/// Declarations that differ are told apart by the bytes that are hashed.
pub proof fn hashed_bytes_tell_declarations_apart(
    a: Seq<D3DVERTEXELEMENT9>,
    b: Seq<D3DVERTEXELEMENT9>,
)
    requires
        elements_bytes(a, a.len() as int) == elements_bytes(b, b.len() as int),
    ensures
        a == b,
    decreases a.len(),
{
    bytes_count(a, a.len() as int);
    bytes_count(b, b.len() as int);
    assert(a.len() == b.len());
    if a.len() > 0 {
        let n = a.len() - 1;
        let x = elements_bytes(a, n);
        let y = elements_bytes(b, n);
        let p = element_bytes(a[n]);
        let q = element_bytes(b[n]);
        bytes_count(a, n);
        bytes_count(b, n);
        assert(x + p == y + q);
        assert(x =~= (x + p).subrange(0, 8 * n));
        assert(y =~= (y + q).subrange(0, 8 * n));
        assert(p =~= (x + p).subrange(8 * n, 8 * n + 8));
        assert(q =~= (y + q).subrange(8 * n, 8 * n + 8));
        bytes_of_first(a, a.drop_last(), n);
        bytes_of_first(b, b.drop_last(), n);
        hashed_bytes_tell_declarations_apart(a.drop_last(), b.drop_last());
        assert(p[0] == q[0] && p[1] == q[1] && p[2] == q[2] && p[3] == q[3] && p[4] == q[4] && p[5]
            == q[5] && p[6] == q[6] && p[7] == q[7]);
        assert(a[n] == b[n]);
        assert(a =~= a.drop_last().push(a[n]));
        assert(b =~= b.drop_last().push(b[n]));
    } else {
        assert(a =~= b);
    }
}

proof fn bytes_count(s: Seq<D3DVERTEXELEMENT9>, n: int)
    requires
        0 <= n,
    ensures
        elements_bytes(s, n).len() == 8 * n,
    decreases n,
{
    if n > 0 {
        bytes_count(s, n - 1);
    }
}

proof fn bytes_of_first(a: Seq<D3DVERTEXELEMENT9>, b: Seq<D3DVERTEXELEMENT9>, n: int)
    requires
        0 <= n <= a.len(),
        n <= b.len(),
        forall|i: int| 0 <= i < n ==> a[i] == b[i],
    ensures
        elements_bytes(a, n) == elements_bytes(b, n),
    decreases n,
{
    if n > 0 {
        bytes_of_first(a, b, n - 1);
    }
}

/// Whether an element ends a declaration.
pub open spec fn is_end(e: D3DVERTEXELEMENT9) -> bool {
    e.stream == D3DDECL_END_STREAM
}

/// Whether an element ends a declaration.
pub fn is_decl_end(e: &D3DVERTEXELEMENT9) -> (r: bool)
    ensures
        r == is_end(*e),
{
    e.stream == D3DDECL_END_STREAM
}

/// A vertex declaration as it is kept.
pub struct PackedVertexDecl {
    /// The elements up to and with the terminator.
    pub elements_with_end: Vec<D3DVERTEXELEMENT9>,
    /// The hash of the elements without the terminator.
    pub hash: u64,
    /// Bit per stream: an element is on it.
    pub stream_mask: u16,
}

/// Where the first terminator is, if there is one.
pub open spec fn is_first_end(elements: Seq<D3DVERTEXELEMENT9>, at: int) -> bool {
    &&& 0 <= at < elements.len()
    &&& is_end(elements[at])
    &&& forall|i: int| 0 <= i < at ==> !is_end(#[trigger] elements[i])
}

/// Keeps a vertex declaration up to its terminator; none when it has no terminator.
pub fn pack_vertex_decl(elements: &[D3DVERTEXELEMENT9]) -> (r: Option<PackedVertexDecl>)
    ensures
        r is Some <==> exists|i: int| 0 <= i < elements@.len() && is_end(#[trigger] elements@[i]),
        r matches Some(p) ==> {
            let at = p.elements_with_end@.len() - 1;
            &&& is_first_end(elements@, at)
            &&& p.elements_with_end@ == elements@.take(at + 1)
            &&& p.hash == xxh3_digest(elements_bytes(elements@.take(at), at))
            &&& forall|s: int|
                0 <= s < 16 ==> (#[trigger] bit16(p.stream_mask, s) <==> exists|i: int|
                    0 <= i < at && (#[trigger] elements@[i]).stream == s)
        },
{
    let mut kept: Vec<D3DVERTEXELEMENT9> = Vec::new();
    let mut stream_mask: u16 = 0;
    proof {
        zero_has_no_bits();
    }
    let mut i: usize = 0;
    while i < elements.len()
        invariant
            i <= elements@.len(),
            kept@ == elements@.take(i as int),
            forall|j: int| 0 <= j < i ==> !is_end(#[trigger] elements@[j]),
            forall|s: int|
                0 <= s < 16 ==> (#[trigger] bit16(stream_mask, s) <==> exists|j: int|
                    0 <= j < i && (#[trigger] elements@[j]).stream == s),
        decreases elements@.len() - i,
    {
        let e: D3DVERTEXELEMENT9 = elements[i];
        if is_decl_end(&e) {
            let hash: u64 = hash_elements(kept.as_slice());
            kept.push(e);
            assert(kept@ =~= elements@.take(i + 1));
            assert(is_end(elements@[i as int]));
            return Some(PackedVertexDecl { elements_with_end: kept, hash, stream_mask });
        }
        let ghost before = stream_mask;
        if (e.stream as u32) < MAX_STREAMS {
            stream_mask = with_bit16(stream_mask, e.stream as u32);
        }
        proof {
            assert forall|s: int| 0 <= s < 16 implies (#[trigger] bit16(stream_mask, s)
                <==> exists|j: int| 0 <= j < i + 1 && (#[trigger] elements@[j]).stream == s) by {
                assert(bit16(before, s) <==> exists|j: int|
                    0 <= j < i && (#[trigger] elements@[j]).stream == s);
                if elements@[i as int].stream == s {
                    assert(bit16(stream_mask, s));
                } else {
                    assert(bit16(stream_mask, s) == bit16(before, s));
                }
            }
        }
        kept.push(e);
        assert(kept@ =~= elements@.take(i + 1));
        i += 1;
    }
    None
}

proof fn leading_usages(fvf: u32, i: int)
    requires
        0 <= i < leading_semantics(fvf).len(),
    ensures
        leading_semantics(fvf)[i].usage != D3DDECLUSAGE_TEXCOORD,
        leading_semantics(fvf)[i].usage == D3DDECLUSAGE_NORMAL ==> fvf & D3DFVF_NORMAL != 0,
        leading_semantics(fvf)[i].usage == D3DDECLUSAGE_PSIZE ==> fvf & D3DFVF_PSIZE != 0,
        leading_semantics(fvf)[i].usage == D3DDECLUSAGE_COLOR && leading_semantics(
            fvf,
        )[i].usage_index == 0 ==> fvf & D3DFVF_DIFFUSE != 0,
        leading_semantics(fvf)[i].usage == D3DDECLUSAGE_COLOR && leading_semantics(
            fvf,
        )[i].usage_index == 1 ==> fvf & D3DFVF_SPECULAR != 0,
        leading_semantics(fvf)[i].usage == D3DDECLUSAGE_POSITIONT ==> fvf & D3DFVF_POSITION_MASK
            == D3DFVF_XYZRHW,
{
    let p = position_semantics(fvf);
    assert forall|j: int| 0 <= j < p.len() implies (#[trigger] p[j]).usage == D3DDECLUSAGE_POSITION
        || p[j].usage == D3DDECLUSAGE_BLENDWEIGHT || p[j].usage == D3DDECLUSAGE_BLENDINDICES || (
    p[j].usage == D3DDECLUSAGE_POSITIONT && fvf & D3DFVF_POSITION_MASK == D3DFVF_XYZRHW) by {
        if has_betas(fvf & D3DFVF_POSITION_MASK) && j > 0 {
            assert(p[j] == beta_semantics(fvf)[j - 1]);
        }
    }
}

proof fn coord_sets_start_behind(fvf: u32, n: int)
    requires
        0 <= n <= leading_semantics(fvf).len(),
    ensures
        coord_set_end(laid_out(fvf_semantics(fvf)), n) == 0,
    decreases n,
{
    if n > 0 {
        coord_sets_start_behind(fvf, n - 1);
        leading_usages(fvf, n - 1);
        assert(fvf_semantics(fvf)[n - 1] == leading_semantics(fvf)[n - 1]);
    }
}

proof fn coord_sets_count_up(fvf: u32, n: int)
    requires
        0 <= n <= coord_set_count(fvf),
    ensures
        coord_set_end(laid_out(fvf_semantics(fvf)), leading_semantics(fvf).len() + n) == n,
    decreases n,
{
    if n == 0 {
        coord_sets_start_behind(fvf, leading_semantics(fvf).len() as int);
    } else {
        coord_sets_count_up(fvf, n - 1);
        let at = leading_semantics(fvf).len() + n - 1;
        assert(fvf_semantics(fvf)[at] == coord_semantics(fvf, coord_set_count(fvf))[n - 1]);
    }
}

proof fn leading_element(fvf: u32, i: int)
    requires
        0 <= i < leading_semantics(fvf).len(),
    ensures
        i < laid_out(fvf_semantics(fvf)).len(),
        laid_out(fvf_semantics(fvf))[i].stream == 0,
        laid_out(fvf_semantics(fvf))[i].usage == leading_semantics(fvf)[i].usage,
        laid_out(fvf_semantics(fvf))[i].usage_index == leading_semantics(fvf)[i].usage_index,
{
    assert(fvf_semantics(fvf)[i] == leading_semantics(fvf)[i]);
}

/// A vertex format and the declaration made from it agree on what a vertex holds: the
/// number of coordinate sets, the normal, the point size, the colours, and whether the
/// position is already transformed.
pub proof fn formats_and_declarations_agree(fvf: u32)
    ensures
        ({
            let e = laid_out(fvf_semantics(fvf));
            let flags = layout_flags(e, e.len() as int);
            &&& coord_set_end(e, e.len() as int) == coord_set_count(fvf)
            &&& flags.has_normal == (fvf & D3DFVF_NORMAL != 0)
            &&& flags.has_psize == (fvf & D3DFVF_PSIZE != 0)
            &&& flags.has_color0 == (fvf & D3DFVF_DIFFUSE != 0)
            &&& flags.has_color1 == (fvf & D3DFVF_SPECULAR != 0)
            &&& flags.has_rhw == (fvf & D3DFVF_POSITION_MASK == D3DFVF_XYZRHW)
        }),
{
    coord_sets_count_up(fvf, coord_set_count(fvf));
    let e = laid_out(fvf_semantics(fvf));
    let lead = leading_semantics(fvf);
    assert forall|i: int| 0 <= i < e.len() implies (i < lead.len() && (#[trigger] e[i]).usage
        == lead[i].usage && e[i].usage_index == lead[i].usage_index) || e[i].usage
        == D3DDECLUSAGE_TEXCOORD by {
        if i >= lead.len() {
            assert(fvf_semantics(fvf)[i] == coord_semantics(fvf, coord_set_count(fvf))[i
                - lead.len()]);
        } else {
            leading_element(fvf, i);
        }
    }
    assert forall|i: int| 0 <= i < lead.len() implies (#[trigger] lead[i]).usage
        != D3DDECLUSAGE_TEXCOORD && (lead[i].usage == D3DDECLUSAGE_NORMAL ==> fvf & D3DFVF_NORMAL
        != 0) && (lead[i].usage == D3DDECLUSAGE_PSIZE ==> fvf & D3DFVF_PSIZE != 0) && (
    lead[i].usage == D3DDECLUSAGE_COLOR && lead[i].usage_index == 0 ==> fvf & D3DFVF_DIFFUSE != 0)
        && (lead[i].usage == D3DDECLUSAGE_COLOR && lead[i].usage_index == 1 ==> fvf
        & D3DFVF_SPECULAR != 0) && (lead[i].usage == D3DDECLUSAGE_POSITIONT ==> fvf
        & D3DFVF_POSITION_MASK == D3DFVF_XYZRHW) by {
        leading_usages(fvf, i);
    }
    let p = position_semantics(fvf);
    let n = p.len() as int;
    let ps = n + (if fvf & D3DFVF_NORMAL != 0 {
        1int
    } else {
        0
    });
    let c0 = ps + (if fvf & D3DFVF_PSIZE != 0 {
        1int
    } else {
        0
    });
    let c1 = c0 + (if fvf & D3DFVF_DIFFUSE != 0 {
        1int
    } else {
        0
    });
    if fvf & D3DFVF_NORMAL != 0 {
        assert(lead[n].usage == D3DDECLUSAGE_NORMAL);
        leading_element(fvf, n);
    }
    if fvf & D3DFVF_PSIZE != 0 {
        assert(lead[ps].usage == D3DDECLUSAGE_PSIZE);
        leading_element(fvf, ps);
    }
    if fvf & D3DFVF_DIFFUSE != 0 {
        assert(lead[c0].usage == D3DDECLUSAGE_COLOR && lead[c0].usage_index == 0);
        leading_element(fvf, c0);
    }
    if fvf & D3DFVF_SPECULAR != 0 {
        assert(lead[c1].usage == D3DDECLUSAGE_COLOR && lead[c1].usage_index == 1);
        leading_element(fvf, c1);
    }
    if fvf & D3DFVF_POSITION_MASK == D3DFVF_XYZRHW {
        assert(lead[0].usage == D3DDECLUSAGE_POSITIONT);
        leading_element(fvf, 0);
    }
}

} // verus!
