//! What codes mean on either side, and that they mean the same.
//!
//! The Direct3D side goes by the numbers of the codes, the Metal side by the names of its
//! values. Neither says anything of how one is made from the other.

use super::known::{is_known, CodeKind};
use super::state::{
    border_color_preset_spec, d3d_to_metal_address_mode_spec, d3d_to_metal_blend_op_spec,
    d3d_to_metal_blend_rt_spec, d3d_to_metal_blend_spec, d3d_to_metal_cmp_spec,
    d3d_to_metal_cull_spec, d3d_to_metal_min_mag_filter_spec, d3d_to_metal_mip_filter_spec,
    d3d_to_metal_primitive_spec, d3d_to_metal_stencil_op_spec, d3d_to_metal_write_mask_spec,
    vertex_count_spec,
};
use super::vertex::{decl_format, decl_type_dim_spec};
use crate::metal::{
    AddressMode, BlendFactor, BlendOperation, BorderColor, CompareFunc, CullMode, MinMagFilter,
    MipFilter, PrimitiveType, StencilOp, VertexFormat,
};
use vstd::prelude::*;

verus! {

/// The smaller of two numbers.
pub open spec fn lesser(a: int, b: int) -> int {
    if a < b {
        a
    } else {
        b
    }
}

/// The larger of two numbers.
pub open spec fn greater(a: int, b: int) -> int {
    if a < b {
        b
    } else {
        a
    }
}

/// The weight that a Direct3D blend code gives to channel `c`, in units of which `one` make
/// a whole.
pub open spec fn d3d_weight(
    code: u32,
    one: int,
    src: Seq<int>,
    dst: Seq<int>,
    constant: Seq<int>,
    c: int,
) -> int {
    match code {
        1 => 0,
        2 => one,
        3 => src[c],
        4 => one - src[c],
        5 => src[3],
        6 => one - src[3],
        7 => dst[3],
        8 => one - dst[3],
        9 => dst[c],
        10 => one - dst[c],
        11 => if c == 3 {
            one
        } else {
            lesser(src[3], one - dst[3])
        },
        14 => constant[c],
        15 => one - constant[c],
        _ => 0,
    }
}

/// The weight that a Metal blend factor gives to channel `c`.
pub open spec fn metal_weight(
    factor: BlendFactor,
    one: int,
    src: Seq<int>,
    dst: Seq<int>,
    constant: Seq<int>,
    c: int,
) -> int {
    match factor {
        BlendFactor::Zero => 0,
        BlendFactor::One => one,
        BlendFactor::SourceColor => src[c],
        BlendFactor::OneMinusSourceColor => one - src[c],
        BlendFactor::SourceAlpha => src[3],
        BlendFactor::OneMinusSourceAlpha => one - src[3],
        BlendFactor::DestinationColor => dst[c],
        BlendFactor::OneMinusDestinationColor => one - dst[c],
        BlendFactor::DestinationAlpha => dst[3],
        BlendFactor::OneMinusDestinationAlpha => one - dst[3],
        BlendFactor::SourceAlphaSaturated => if c == 3 {
            one
        } else {
            lesser(src[3], one - dst[3])
        },
        BlendFactor::BlendColor => constant[c],
        BlendFactor::OneMinusBlendColor => one - constant[c],
    }
}

/// A blend code and the factor it becomes weigh every colour alike. On a target without
/// alpha they do so with a destination that is opaque, but for the code that saturates,
/// which has no other factor.
pub proof fn blend_factors_weigh_alike(
    code: u32,
    has_alpha: bool,
    one: int,
    src: Seq<int>,
    dst: Seq<int>,
    constant: Seq<int>,
    c: int,
)
    requires
        1 <= code <= 11 || code == 14 || code == 15,
        src.len() == 4,
        dst.len() == 4,
        constant.len() == 4,
        0 <= c < 4,
    ensures
        metal_weight(d3d_to_metal_blend_spec(code), one, src, dst, constant, c) == d3d_weight(
            code,
            one,
            src,
            dst,
            constant,
            c,
        ),
        has_alpha ==> metal_weight(
            d3d_to_metal_blend_rt_spec(code, has_alpha),
            one,
            src,
            dst,
            constant,
            c,
        ) == d3d_weight(code, one, src, dst, constant, c),
        !has_alpha && code != 11 && (c < 3 || code != 9 && code != 10) ==> metal_weight(
            d3d_to_metal_blend_rt_spec(code, has_alpha),
            one,
            src,
            dst,
            constant,
            c,
        ) == d3d_weight(code, one, src, dst.update(3, one), constant, c),
{
}

/// What a Direct3D blend operation makes of a weighted source and destination.
pub open spec fn d3d_blended(code: u32, src: int, dst: int) -> int {
    match code {
        1 => src + dst,
        2 => src - dst,
        3 => dst - src,
        4 => lesser(src, dst),
        5 => greater(src, dst),
        _ => src + dst,
    }
}

/// What a Metal blend operation makes of them.
pub open spec fn metal_blended(op: BlendOperation, src: int, dst: int) -> int {
    match op {
        BlendOperation::Add => src + dst,
        BlendOperation::Subtract => src - dst,
        BlendOperation::ReverseSubtract => dst - src,
        BlendOperation::Min => lesser(src, dst),
        BlendOperation::Max => greater(src, dst),
    }
}

/// A blend operation makes the same of every source and destination on either side.
pub proof fn blend_operations_agree(code: u32, src: int, dst: int)
    ensures
        metal_blended(d3d_to_metal_blend_op_spec(code), src, dst) == d3d_blended(code, src, dst),
{
}

/// Whether a value passes a Direct3D comparison against what is stored.
pub open spec fn d3d_passes(code: u32, value: int, stored: int) -> bool {
    match code {
        1 => false,
        2 => value < stored,
        3 => value == stored,
        4 => value <= stored,
        5 => value > stored,
        6 => value != stored,
        7 => value >= stored,
        _ => true,
    }
}

/// Whether it passes a Metal comparison.
pub open spec fn metal_passes(f: CompareFunc, value: int, stored: int) -> bool {
    match f {
        CompareFunc::Never => false,
        CompareFunc::Less => value < stored,
        CompareFunc::Equal => value == stored,
        CompareFunc::LessEqual => value <= stored,
        CompareFunc::Greater => value > stored,
        CompareFunc::NotEqual => value != stored,
        CompareFunc::GreaterEqual => value >= stored,
        CompareFunc::Always => true,
    }
}

/// The same values pass a comparison on either side.
pub proof fn comparisons_agree(code: u32, value: int, stored: int)
    ensures
        metal_passes(d3d_to_metal_cmp_spec(code), value, stored) == d3d_passes(code, value, stored),
{
}

/// What a Direct3D stencil operation leaves of eight stored bits.
pub open spec fn d3d_stencil(code: u32, stored: int, reference: int) -> int {
    match code {
        2 => 0,
        3 => reference,
        4 => lesser(stored + 1, 255),
        5 => greater(stored - 1, 0),
        6 => 255 - stored,
        7 => (stored + 1) % 256,
        8 => (stored + 255) % 256,
        _ => stored,
    }
}

/// What a Metal stencil operation leaves of them.
pub open spec fn metal_stencil(op: StencilOp, stored: int, reference: int) -> int {
    match op {
        StencilOp::Keep => stored,
        StencilOp::Zero => 0,
        StencilOp::Replace => reference,
        StencilOp::IncrementClamp => lesser(stored + 1, 255),
        StencilOp::DecrementClamp => greater(stored - 1, 0),
        StencilOp::Invert => 255 - stored,
        StencilOp::IncrementWrap => (stored + 1) % 256,
        StencilOp::DecrementWrap => (stored + 255) % 256,
    }
}

/// A stencil operation leaves the same on either side.
pub proof fn stencil_operations_agree(code: u32, stored: int, reference: int)
    ensures
        metal_stencil(d3d_to_metal_stencil_op_spec(code), stored, reference) == d3d_stencil(
            code,
            stored,
            reference,
        ),
{
}

/// Whether a Direct3D culling code drops a triangle that runs clockwise, or one that does
/// not.
pub open spec fn d3d_culls(code: u32, clockwise: bool) -> bool {
    (code == 2 && clockwise) || (code == 3 && !clockwise)
}

/// Whether a Metal culling drops it. Triangles that run clockwise face the front.
pub open spec fn metal_culls(mode: CullMode, clockwise: bool) -> bool {
    match mode {
        CullMode::Disabled => false,
        CullMode::Front => clockwise,
        CullMode::Back => !clockwise,
    }
}

/// The same triangles are dropped on either side, and commands carry Metal's numbers.
pub proof fn culling_agrees(code: u32, clockwise: bool)
    ensures
        metal_culls(d3d_to_metal_cull_spec(code), clockwise) == d3d_culls(code, clockwise),
        CullMode::Disabled.code_spec() == 0,
        CullMode::Front.code_spec() == 1,
        CullMode::Back.code_spec() == 2,
{
}

/// Texels and levels are mixed by the filters that are linear or anisotropic; only without
/// a filter between levels is there a single level.
pub proof fn filters_agree(code: u32)
    ensures
        d3d_to_metal_min_mag_filter_spec(code) == MinMagFilter::Linear <==> code == 2 || code == 3,
        d3d_to_metal_min_mag_filter_spec(code) == MinMagFilter::Nearest <==> code != 2 && code != 3,
        d3d_to_metal_mip_filter_spec(code) == MipFilter::Linear <==> code == 2 || code == 3,
        d3d_to_metal_mip_filter_spec(code) == MipFilter::Nearest <==> code == 1,
        d3d_to_metal_mip_filter_spec(code) == MipFilter::NotMipmapped <==> code == 0 || code > 3,
{
}

/// The texel of `size` in a row that Direct3D takes at `i`, or none for the border.
pub open spec fn d3d_texel(code: u32, size: int, i: int) -> Option<int> {
    match code {
        2 => Some(
            if i % (2 * size) < size {
                i % (2 * size)
            } else {
                2 * size - 1 - i % (2 * size)
            },
        ),
        3 => Some(lesser(greater(i, 0), size - 1)),
        4 => if 0 <= i < size {
            Some(i)
        } else {
            None
        },
        5 => Some(
            lesser(
                if i < 0 {
                    -1 - i
                } else {
                    i
                },
                size - 1,
            ),
        ),
        _ => Some(i % size),
    }
}

/// The texel that Metal takes.
pub open spec fn metal_texel(mode: AddressMode, size: int, i: int) -> Option<int> {
    match mode {
        AddressMode::Repeat => Some(i % size),
        AddressMode::MirrorRepeat => Some(
            if i % (2 * size) < size {
                i % (2 * size)
            } else {
                2 * size - 1 - i % (2 * size)
            },
        ),
        AddressMode::ClampToEdge => Some(lesser(greater(i, 0), size - 1)),
        AddressMode::ClampToBorderColor => if 0 <= i < size {
            Some(i)
        } else {
            None
        },
        AddressMode::MirrorClampToEdge => Some(
            lesser(
                if i < 0 {
                    -1 - i
                } else {
                    i
                },
                size - 1,
            ),
        ),
    }
}

/// The same texel is taken on either side, wherever the coordinate is.
pub proof fn addressing_agrees(code: u32, size: int, i: int)
    requires
        size > 0,
    ensures
        metal_texel(d3d_to_metal_address_mode_spec(code), size, i) == d3d_texel(code, size, i),
{
}

/// The four channels of a border.
pub open spec fn border_channels(b: BorderColor) -> Seq<int> {
    match b {
        BorderColor::TransparentBlack => seq![0int, 0, 0, 0],
        BorderColor::OpaqueBlack => seq![0int, 0, 0, 255],
        BorderColor::OpaqueWhite => seq![255int, 255, 255, 255],
    }
}

/// The four channels of a packed colour, which has alpha on top and then red, green and blue.
pub open spec fn packed_channels(color: u32) -> Seq<int> {
    seq![
        color as int / 0x1_0000 % 0x100,
        color as int / 0x100 % 0x100,
        color as int % 0x100,
        color as int / 0x100_0000 % 0x100,
    ]
}

/// A border is chosen if and only if it has the very channels of the colour.
pub proof fn borders_have_their_colour(color: u32, b: BorderColor)
    ensures
        border_color_preset_spec(color) == Some(b) <==> border_channels(b) == packed_channels(
            color,
        ),
{
    let p = packed_channels(color);
    let q = border_channels(b);
    if border_color_preset_spec(color) == Some(b) {
        assert(q =~= p);
    }
    if q == p {
        assert(p[0] == q[0] && p[1] == q[1] && p[2] == q[2] && p[3] == q[3]);
    }
}

/// Channel `c`, from red to alpha, is written if and only if bit `c` of the mask is set.
pub proof fn write_masks_agree(mask: u32)
    ensures
        d3d_to_metal_write_mask_spec(mask).red <==> mask % 2 == 1,
        d3d_to_metal_write_mask_spec(mask).green <==> mask / 2 % 2 == 1,
        d3d_to_metal_write_mask_spec(mask).blue <==> mask / 4 % 2 == 1,
        d3d_to_metal_write_mask_spec(mask).alpha <==> mask / 8 % 2 == 1,
{
    assert((mask & 1 != 0) == (mask % 2 == 1) && (mask & 2 != 0) == (mask / 2 % 2 == 1) && (mask & 4
        != 0) == (mask / 4 % 2 == 1) && (mask & 8 != 0) == (mask / 8 % 2 == 1)) by (bit_vector);
}

/// The vertices of primitive `n` that Direct3D draws, in order.
pub open spec fn d3d_vertices(code: u32, n: int) -> Seq<int> {
    match code {
        1 => seq![n],
        2 => seq![2 * n, 2 * n + 1],
        3 => seq![n, n + 1],
        4 => seq![3 * n, 3 * n + 1, 3 * n + 2],
        5 => if n % 2 == 0 {
            seq![n, n + 1, n + 2]
        } else {
            seq![n + 1, n, n + 2]
        },
        6 => seq![0int, n + 1, n + 2],
        _ => Seq::empty(),
    }
}

/// The vertices of primitive `n` that Metal draws.
pub open spec fn metal_vertices(p: PrimitiveType, n: int) -> Seq<int> {
    match p {
        PrimitiveType::Point => seq![n],
        PrimitiveType::Line => seq![2 * n, 2 * n + 1],
        PrimitiveType::LineStrip => seq![n, n + 1],
        PrimitiveType::Triangle => seq![3 * n, 3 * n + 1, 3 * n + 2],
        PrimitiveType::TriangleStrip => if n % 2 == 0 {
            seq![n, n + 1, n + 2]
        } else {
            seq![n + 1, n, n + 2]
        },
    }
}

/// What is drawn has the same vertices on either side, and the vertices that are counted
/// are exactly those up to the last one of the last primitive.
pub proof fn primitives_have_their_vertices(code: u32, n: int, count: u32)
    requires
        0 <= n,
        count > 0,
    ensures
        d3d_to_metal_primitive_spec(code) matches Some(p) ==> metal_vertices(p, n) == d3d_vertices(
            code,
            n,
        ),
        d3d_to_metal_primitive_spec(code) is Some <==> 1 <= code <= 5,
        1 <= code <= 6 ==> vertex_count_spec(code, count) == d3d_vertices(code, count - 1).last()
            + 1,
        1 <= code <= 6 && n < count ==> forall|i: int|
            0 <= i < d3d_vertices(code, n).len() ==> 0 <= #[trigger] d3d_vertices(code, n)[i]
                < vertex_count_spec(code, count),
        !(1 <= code <= 6) ==> vertex_count_spec(code, count) == 0,
{
}

/// How a component of a vertex element is stored.
#[derive(PartialEq, Eq, Structural)]
pub enum Component {
    Float,
    Half,
    Byte,
    Short,
    UnsignedShort,
}

/// A vertex element: its components, whether they are brought into the unit range, and
/// whether the first and the third change places.
pub struct ElementMeaning {
    pub component: Component,
    pub count: int,
    pub unit: bool,
    pub swapped: bool,
}

/// How many bytes an element has.
pub open spec fn element_size(e: ElementMeaning) -> int {
    e.count * match e.component {
        Component::Float => 4int,
        Component::Half => 2,
        Component::Byte => 1,
        Component::Short => 2,
        Component::UnsignedShort => 2,
    }
}

/// An element that has a counterpart.
pub open spec fn element(component: Component, count: int, unit: bool, swapped: bool) -> Option<
    ElementMeaning,
> {
    Some(ElementMeaning { component, count, unit, swapped })
}

/// What a Direct3D element type stands for, if there is a counterpart.
pub open spec fn d3d_element(ty: u8) -> Option<ElementMeaning> {
    match ty {
        0 => element(Component::Float, 1, false, false),
        1 => element(Component::Float, 2, false, false),
        2 => element(Component::Float, 3, false, false),
        3 => element(Component::Float, 4, false, false),
        4 => element(Component::Byte, 4, true, true),
        5 => element(Component::Byte, 4, false, false),
        6 => element(Component::Short, 2, false, false),
        7 => element(Component::Short, 4, false, false),
        8 => element(Component::Byte, 4, true, false),
        9 => element(Component::Short, 2, true, false),
        10 => element(Component::Short, 4, true, false),
        11 => element(Component::UnsignedShort, 2, true, false),
        12 => element(Component::UnsignedShort, 4, true, false),
        15 => element(Component::Half, 2, false, false),
        16 => element(Component::Half, 4, false, false),
        _ => None,
    }
}

/// What a Metal vertex format stands for.
pub open spec fn metal_element(f: VertexFormat) -> Option<ElementMeaning> {
    match f {
        VertexFormat::Float => element(Component::Float, 1, false, false),
        VertexFormat::Float2 => element(Component::Float, 2, false, false),
        VertexFormat::Float3 => element(Component::Float, 3, false, false),
        VertexFormat::Float4 => element(Component::Float, 4, false, false),
        VertexFormat::UChar4NormalizedBgra => element(Component::Byte, 4, true, true),
        VertexFormat::UChar4 => element(Component::Byte, 4, false, false),
        VertexFormat::UChar4Normalized => element(Component::Byte, 4, true, false),
        VertexFormat::Short2 => element(Component::Short, 2, false, false),
        VertexFormat::Short4 => element(Component::Short, 4, false, false),
        VertexFormat::Short2Normalized => element(Component::Short, 2, true, false),
        VertexFormat::Short4Normalized => element(Component::Short, 4, true, false),
        VertexFormat::UShort2Normalized => element(Component::UnsignedShort, 2, true, false),
        VertexFormat::UShort4Normalized => element(Component::UnsignedShort, 4, true, false),
        VertexFormat::Half2 => element(Component::Half, 2, false, false),
        VertexFormat::Half4 => element(Component::Half, 4, false, false),
        VertexFormat::Invalid => None,
    }
}

/// An element type becomes a format with the same components, is as large as these, and has
/// as many as are counted.
pub proof fn elements_agree(ty: u8)
    ensures
        metal_element(decl_format(ty).0) == d3d_element(ty),
        d3d_element(ty) matches Some(e) ==> decl_format(ty).1 == element_size(e)
            && decl_type_dim_spec(ty) == e.count,
        d3d_element(ty) is None ==> decl_format(ty).1 == 0,
        d3d_element(ty) is Some <==> is_known(CodeKind::ElementType, ty as u32),
{
}

} // verus!
