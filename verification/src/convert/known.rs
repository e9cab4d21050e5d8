//! Which codes have a counterpart.

use super::state::{
    border_color_preset_spec, d3d_to_metal_address_mode_spec, d3d_to_metal_blend_op_spec,
    d3d_to_metal_blend_spec, d3d_to_metal_cmp_spec, d3d_to_metal_cull_spec,
    d3d_to_metal_min_mag_filter_spec, d3d_to_metal_mip_filter_spec, d3d_to_metal_primitive_spec,
    d3d_to_metal_stencil_op_spec, vertex_count_spec,
};
use super::vertex::decl_format;
use crate::d3d9::{
    D3DBLENDOP_ADD, D3DBLENDOP_MAX, D3DBLEND_BLENDFACTOR, D3DBLEND_INVBLENDFACTOR,
    D3DBLEND_SRCALPHASAT, D3DBLEND_ZERO, D3DCMP_ALWAYS, D3DCMP_NEVER, D3DCULL_CCW, D3DCULL_NONE,
    D3DDECLTYPE_DEC3N, D3DDECLTYPE_FLOAT16_4, D3DDECLTYPE_UDEC3, D3DPT_POINTLIST,
    D3DPT_TRIANGLEFAN, D3DPT_TRIANGLESTRIP, D3DSTENCILOP_DECR, D3DSTENCILOP_KEEP,
    D3DTADDRESS_MIRRORONCE, D3DTADDRESS_WRAP, D3DTEXF_ANISOTROPIC, D3DTEXF_NONE, D3DTEXF_POINT,
    D3DVBF_0WEIGHTS, D3DVBF_3WEIGHTS,
};
use crate::metal::{
    AddressMode, BlendFactor, BlendOperation, CompareFunc, CullMode, MinMagFilter, MipFilter,
    StencilOp, VertexFormat,
};
use vstd::prelude::*;

verus! {

/// What a code stands for.
#[derive(Clone, Copy, Debug, PartialEq, Eq, PartialOrd, Ord, Hash, Structural)]
pub enum CodeKind {
    Comparison,
    StencilOperation,
    Blend,
    BlendOperation,
    Cull,
    MinMagFilter,
    MipFilter,
    BorderColor,
    AddressMode,
    /// What is drawn; a triangle fan is drawn as something else.
    Primitive,
    /// What vertices are counted for.
    CountedPrimitive,
    ElementType,
    Fog,
    VertexBlend,
    MaterialSource,
}

/// Whether a code has a counterpart.
pub open spec fn is_known(kind: CodeKind, code: u32) -> bool {
    match kind {
        CodeKind::Comparison => D3DCMP_NEVER <= code <= D3DCMP_ALWAYS,
        CodeKind::StencilOperation => D3DSTENCILOP_KEEP <= code <= D3DSTENCILOP_DECR,
        CodeKind::Blend => D3DBLEND_ZERO <= code <= D3DBLEND_SRCALPHASAT || D3DBLEND_BLENDFACTOR
            <= code <= D3DBLEND_INVBLENDFACTOR,
        CodeKind::BlendOperation => D3DBLENDOP_ADD <= code <= D3DBLENDOP_MAX,
        CodeKind::Cull => D3DCULL_NONE <= code <= D3DCULL_CCW,
        CodeKind::MinMagFilter => D3DTEXF_POINT <= code <= D3DTEXF_ANISOTROPIC,
        CodeKind::MipFilter => D3DTEXF_NONE <= code <= D3DTEXF_ANISOTROPIC,
        CodeKind::BorderColor => border_color_preset_spec(code) is Some,
        CodeKind::AddressMode => D3DTADDRESS_WRAP <= code <= D3DTADDRESS_MIRRORONCE,
        CodeKind::Primitive => D3DPT_POINTLIST <= code <= D3DPT_TRIANGLESTRIP,
        CodeKind::CountedPrimitive => D3DPT_POINTLIST <= code <= D3DPT_TRIANGLEFAN,
        CodeKind::ElementType => code <= D3DDECLTYPE_FLOAT16_4 && code != D3DDECLTYPE_UDEC3
            && code != D3DDECLTYPE_DEC3N,
        CodeKind::Fog => code <= 3,
        CodeKind::VertexBlend => code <= D3DVBF_3WEIGHTS || code == D3DVBF_0WEIGHTS,
        CodeKind::MaterialSource => code <= 2,
    }
}

fn has_format(ty: u32) -> (r: bool)
    ensures
        r == is_known(CodeKind::ElementType, ty),
{
    ty <= D3DDECLTYPE_FLOAT16_4 as u32 && ty != D3DDECLTYPE_UDEC3 as u32 && ty
        != D3DDECLTYPE_DEC3N as u32
}

/// Whether a code has a counterpart. One that has none gets a default, which is worth a
/// warning.
pub fn knows(kind: CodeKind, code: u32) -> (r: bool)
    ensures
        r == is_known(kind, code),
{
    match kind {
        CodeKind::Comparison => D3DCMP_NEVER <= code && code <= D3DCMP_ALWAYS,
        CodeKind::StencilOperation => D3DSTENCILOP_KEEP <= code && code <= D3DSTENCILOP_DECR,
        CodeKind::Blend => (D3DBLEND_ZERO <= code && code <= D3DBLEND_SRCALPHASAT) || (
        D3DBLEND_BLENDFACTOR <= code && code <= D3DBLEND_INVBLENDFACTOR),
        CodeKind::BlendOperation => D3DBLENDOP_ADD <= code && code <= D3DBLENDOP_MAX,
        CodeKind::Cull => D3DCULL_NONE <= code && code <= D3DCULL_CCW,
        CodeKind::MinMagFilter => D3DTEXF_POINT <= code && code <= D3DTEXF_ANISOTROPIC,
        CodeKind::MipFilter => code <= D3DTEXF_ANISOTROPIC,
        CodeKind::BorderColor => super::state::border_color_preset(code).is_some(),
        CodeKind::AddressMode => D3DTADDRESS_WRAP <= code && code <= D3DTADDRESS_MIRRORONCE,
        CodeKind::Primitive => D3DPT_POINTLIST <= code && code <= D3DPT_TRIANGLESTRIP,
        CodeKind::CountedPrimitive => D3DPT_POINTLIST <= code && code <= D3DPT_TRIANGLEFAN,
        CodeKind::ElementType => has_format(code),
        CodeKind::Fog => code <= 3,
        CodeKind::VertexBlend => code <= D3DVBF_3WEIGHTS || code == D3DVBF_0WEIGHTS,
        CodeKind::MaterialSource => code <= 2,
    }
}

/// A code without a counterpart gets the default of its kind: it passes every test, keeps
/// the stencil, blends with nothing, adds, culls nothing, takes the nearest texel of one
/// level, repeats, and draws and counts nothing.
pub proof fn unknown_codes_have_a_default(code: u32, count: u32)
    ensures
        !is_known(CodeKind::Comparison, code) ==> d3d_to_metal_cmp_spec(code)
            == CompareFunc::Always,
        !is_known(CodeKind::StencilOperation, code) ==> d3d_to_metal_stencil_op_spec(code)
            == StencilOp::Keep,
        !is_known(CodeKind::Blend, code) ==> d3d_to_metal_blend_spec(code) == BlendFactor::Zero,
        !is_known(CodeKind::BlendOperation, code) ==> d3d_to_metal_blend_op_spec(code)
            == BlendOperation::Add,
        !is_known(CodeKind::Cull, code) ==> d3d_to_metal_cull_spec(code) == CullMode::Disabled,
        !is_known(CodeKind::MinMagFilter, code) ==> d3d_to_metal_min_mag_filter_spec(code)
            == MinMagFilter::Nearest,
        !is_known(CodeKind::MipFilter, code) ==> d3d_to_metal_mip_filter_spec(code)
            == MipFilter::NotMipmapped,
        !is_known(CodeKind::AddressMode, code) ==> d3d_to_metal_address_mode_spec(code)
            == AddressMode::Repeat,
        is_known(CodeKind::Primitive, code) <==> d3d_to_metal_primitive_spec(code) is Some,
        !is_known(CodeKind::CountedPrimitive, code) ==> vertex_count_spec(code, count) == 0,
{
}

/// An element type is known if and only if its elements have a format.
pub proof fn known_element_types_have_a_format(ty: u8)
    ensures
        is_known(CodeKind::ElementType, ty as u32) <==> decl_format(ty).0 != VertexFormat::Invalid,
{
}

/// Known codes of a kind are told apart, but for the two filters that are both linear.
pub proof fn known_codes_are_told_apart(a: u32, b: u32)
    requires
        a != b,
    ensures
        is_known(CodeKind::Comparison, a) && is_known(CodeKind::Comparison, b)
            ==> d3d_to_metal_cmp_spec(a) != d3d_to_metal_cmp_spec(b),
        is_known(CodeKind::StencilOperation, a) && is_known(CodeKind::StencilOperation, b)
            ==> d3d_to_metal_stencil_op_spec(a) != d3d_to_metal_stencil_op_spec(b),
        is_known(CodeKind::Blend, a) && is_known(CodeKind::Blend, b) ==> d3d_to_metal_blend_spec(a)
            != d3d_to_metal_blend_spec(b),
        is_known(CodeKind::BlendOperation, a) && is_known(CodeKind::BlendOperation, b)
            ==> d3d_to_metal_blend_op_spec(a) != d3d_to_metal_blend_op_spec(b),
        is_known(CodeKind::Cull, a) && is_known(CodeKind::Cull, b) ==> d3d_to_metal_cull_spec(a)
            != d3d_to_metal_cull_spec(b),
        is_known(CodeKind::AddressMode, a) && is_known(CodeKind::AddressMode, b)
            ==> d3d_to_metal_address_mode_spec(a) != d3d_to_metal_address_mode_spec(b),
        is_known(CodeKind::Primitive, a) && is_known(CodeKind::Primitive, b)
            ==> d3d_to_metal_primitive_spec(a) != d3d_to_metal_primitive_spec(b),
{
}

} // verus!
