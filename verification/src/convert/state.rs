//! Render state codes.

use crate::d3d9::{
    D3DBLENDOP_MAX, D3DBLENDOP_MIN, D3DBLENDOP_REVSUBTRACT, D3DBLENDOP_SUBTRACT,
    D3DBLEND_BLENDFACTOR, D3DBLEND_DESTALPHA, D3DBLEND_DESTCOLOR, D3DBLEND_INVBLENDFACTOR,
    D3DBLEND_INVDESTALPHA, D3DBLEND_INVDESTCOLOR, D3DBLEND_INVSRCALPHA, D3DBLEND_INVSRCCOLOR,
    D3DBLEND_ONE, D3DBLEND_SRCALPHA, D3DBLEND_SRCALPHASAT, D3DBLEND_SRCCOLOR, D3DCMP_EQUAL,
    D3DCMP_GREATER, D3DCMP_GREATEREQUAL, D3DCMP_LESS, D3DCMP_LESSEQUAL, D3DCMP_NEVER,
    D3DCMP_NOTEQUAL, D3DCULL_CCW, D3DCULL_CW, D3DPT_LINELIST, D3DPT_LINESTRIP, D3DPT_POINTLIST,
    D3DPT_TRIANGLEFAN, D3DPT_TRIANGLELIST, D3DPT_TRIANGLESTRIP, D3DSTENCILOP_DECR,
    D3DSTENCILOP_DECRSAT, D3DSTENCILOP_INCR, D3DSTENCILOP_INCRSAT, D3DSTENCILOP_INVERT,
    D3DSTENCILOP_REPLACE, D3DSTENCILOP_ZERO, D3DTADDRESS_BORDER, D3DTADDRESS_CLAMP,
    D3DTADDRESS_MIRROR, D3DTADDRESS_MIRRORONCE, D3DTEXF_ANISOTROPIC, D3DTEXF_LINEAR,
    D3DTEXF_POINT,
};
use crate::metal::{
    AddressMode, BlendFactor, BlendOperation, BorderColor, ColorWriteMask, CompareFunc, CullMode,
    MinMagFilter, MipFilter, PrimitiveType, StencilOp,
};
use vstd::prelude::*;

verus! {

/// The comparison for a code; an unknown code compares nothing away.
pub open spec fn d3d_to_metal_cmp_spec(d3d_func: u32) -> CompareFunc {
    if d3d_func == D3DCMP_NEVER {
        CompareFunc::Never
    } else if d3d_func == D3DCMP_LESS {
        CompareFunc::Less
    } else if d3d_func == D3DCMP_EQUAL {
        CompareFunc::Equal
    } else if d3d_func == D3DCMP_LESSEQUAL {
        CompareFunc::LessEqual
    } else if d3d_func == D3DCMP_GREATER {
        CompareFunc::Greater
    } else if d3d_func == D3DCMP_NOTEQUAL {
        CompareFunc::NotEqual
    } else if d3d_func == D3DCMP_GREATEREQUAL {
        CompareFunc::GreaterEqual
    } else {
        CompareFunc::Always
    }
}

/// The comparison for a code; an unknown code compares nothing away.
pub fn d3d_to_metal_cmp(d3d_func: u32) -> (r: CompareFunc)
    ensures
        r == d3d_to_metal_cmp_spec(d3d_func),
{
    if d3d_func == D3DCMP_NEVER {
        CompareFunc::Never
    } else if d3d_func == D3DCMP_LESS {
        CompareFunc::Less
    } else if d3d_func == D3DCMP_EQUAL {
        CompareFunc::Equal
    } else if d3d_func == D3DCMP_LESSEQUAL {
        CompareFunc::LessEqual
    } else if d3d_func == D3DCMP_GREATER {
        CompareFunc::Greater
    } else if d3d_func == D3DCMP_NOTEQUAL {
        CompareFunc::NotEqual
    } else if d3d_func == D3DCMP_GREATEREQUAL {
        CompareFunc::GreaterEqual
    } else {
        CompareFunc::Always
    }
}

/// The stencil operation for a code; an unknown code keeps the value.
pub open spec fn d3d_to_metal_stencil_op_spec(d3d_op: u32) -> StencilOp {
    if d3d_op == D3DSTENCILOP_ZERO {
        StencilOp::Zero
    } else if d3d_op == D3DSTENCILOP_REPLACE {
        StencilOp::Replace
    } else if d3d_op == D3DSTENCILOP_INCRSAT {
        StencilOp::IncrementClamp
    } else if d3d_op == D3DSTENCILOP_DECRSAT {
        StencilOp::DecrementClamp
    } else if d3d_op == D3DSTENCILOP_INVERT {
        StencilOp::Invert
    } else if d3d_op == D3DSTENCILOP_INCR {
        StencilOp::IncrementWrap
    } else if d3d_op == D3DSTENCILOP_DECR {
        StencilOp::DecrementWrap
    } else {
        StencilOp::Keep
    }
}

/// The stencil operation for a code; an unknown code keeps the value.
pub fn d3d_to_metal_stencil_op(d3d_op: u32) -> (r: StencilOp)
    ensures
        r == d3d_to_metal_stencil_op_spec(d3d_op),
{
    if d3d_op == D3DSTENCILOP_ZERO {
        StencilOp::Zero
    } else if d3d_op == D3DSTENCILOP_REPLACE {
        StencilOp::Replace
    } else if d3d_op == D3DSTENCILOP_INCRSAT {
        StencilOp::IncrementClamp
    } else if d3d_op == D3DSTENCILOP_DECRSAT {
        StencilOp::DecrementClamp
    } else if d3d_op == D3DSTENCILOP_INVERT {
        StencilOp::Invert
    } else if d3d_op == D3DSTENCILOP_INCR {
        StencilOp::IncrementWrap
    } else if d3d_op == D3DSTENCILOP_DECR {
        StencilOp::DecrementWrap
    } else {
        StencilOp::Keep
    }
}

/// The blend factor for a code; an unknown code is zero.
pub open spec fn d3d_to_metal_blend_spec(d3d_blend: u32) -> BlendFactor {
    if d3d_blend == D3DBLEND_ONE {
        BlendFactor::One
    } else if d3d_blend == D3DBLEND_SRCCOLOR {
        BlendFactor::SourceColor
    } else if d3d_blend == D3DBLEND_INVSRCCOLOR {
        BlendFactor::OneMinusSourceColor
    } else if d3d_blend == D3DBLEND_SRCALPHA {
        BlendFactor::SourceAlpha
    } else if d3d_blend == D3DBLEND_INVSRCALPHA {
        BlendFactor::OneMinusSourceAlpha
    } else if d3d_blend == D3DBLEND_DESTALPHA {
        BlendFactor::DestinationAlpha
    } else if d3d_blend == D3DBLEND_INVDESTALPHA {
        BlendFactor::OneMinusDestinationAlpha
    } else if d3d_blend == D3DBLEND_DESTCOLOR {
        BlendFactor::DestinationColor
    } else if d3d_blend == D3DBLEND_INVDESTCOLOR {
        BlendFactor::OneMinusDestinationColor
    } else if d3d_blend == D3DBLEND_SRCALPHASAT {
        BlendFactor::SourceAlphaSaturated
    } else if d3d_blend == D3DBLEND_BLENDFACTOR {
        BlendFactor::BlendColor
    } else if d3d_blend == D3DBLEND_INVBLENDFACTOR {
        BlendFactor::OneMinusBlendColor
    } else {
        BlendFactor::Zero
    }
}

/// The blend factor for a code; an unknown code is zero.
pub fn d3d_to_metal_blend(d3d_blend: u32) -> (r: BlendFactor)
    ensures
        r == d3d_to_metal_blend_spec(d3d_blend),
{
    if d3d_blend == D3DBLEND_ONE {
        BlendFactor::One
    } else if d3d_blend == D3DBLEND_SRCCOLOR {
        BlendFactor::SourceColor
    } else if d3d_blend == D3DBLEND_INVSRCCOLOR {
        BlendFactor::OneMinusSourceColor
    } else if d3d_blend == D3DBLEND_SRCALPHA {
        BlendFactor::SourceAlpha
    } else if d3d_blend == D3DBLEND_INVSRCALPHA {
        BlendFactor::OneMinusSourceAlpha
    } else if d3d_blend == D3DBLEND_DESTALPHA {
        BlendFactor::DestinationAlpha
    } else if d3d_blend == D3DBLEND_INVDESTALPHA {
        BlendFactor::OneMinusDestinationAlpha
    } else if d3d_blend == D3DBLEND_DESTCOLOR {
        BlendFactor::DestinationColor
    } else if d3d_blend == D3DBLEND_INVDESTCOLOR {
        BlendFactor::OneMinusDestinationColor
    } else if d3d_blend == D3DBLEND_SRCALPHASAT {
        BlendFactor::SourceAlphaSaturated
    } else if d3d_blend == D3DBLEND_BLENDFACTOR {
        BlendFactor::BlendColor
    } else if d3d_blend == D3DBLEND_INVBLENDFACTOR {
        BlendFactor::OneMinusBlendColor
    } else {
        BlendFactor::Zero
    }
}

/// The blend factor for a code on a target that may lack alpha: a target without it
/// has an alpha of one.
pub open spec fn d3d_to_metal_blend_rt_spec(d3d_blend: u32, rt_has_alpha: bool) -> BlendFactor {
    if !rt_has_alpha && d3d_blend == D3DBLEND_DESTALPHA {
        BlendFactor::One
    } else if !rt_has_alpha && d3d_blend == D3DBLEND_INVDESTALPHA {
        BlendFactor::Zero
    } else {
        d3d_to_metal_blend_spec(d3d_blend)
    }
}

/// The blend factor for a code on a target that may lack alpha.
pub fn d3d_to_metal_blend_rt(d3d_blend: u32, rt_has_alpha: bool) -> (r: BlendFactor)
    ensures
        r == d3d_to_metal_blend_rt_spec(d3d_blend, rt_has_alpha),
{
    if !rt_has_alpha && d3d_blend == D3DBLEND_DESTALPHA {
        BlendFactor::One
    } else if !rt_has_alpha && d3d_blend == D3DBLEND_INVDESTALPHA {
        BlendFactor::Zero
    } else {
        d3d_to_metal_blend(d3d_blend)
    }
}

/// On a target without alpha no factor reads the alpha that is stored there.
pub proof fn absent_alpha_is_never_read(d3d_blend: u32)
    ensures
        !(d3d_to_metal_blend_rt_spec(d3d_blend, false) is DestinationAlpha),
        !(d3d_to_metal_blend_rt_spec(d3d_blend, false) is OneMinusDestinationAlpha),
        d3d_to_metal_blend_rt_spec(d3d_blend, true) == d3d_to_metal_blend_spec(d3d_blend),
{
}

/// The blend operation for a code; an unknown code adds.
pub open spec fn d3d_to_metal_blend_op_spec(d3d_op: u32) -> BlendOperation {
    if d3d_op == D3DBLENDOP_SUBTRACT {
        BlendOperation::Subtract
    } else if d3d_op == D3DBLENDOP_REVSUBTRACT {
        BlendOperation::ReverseSubtract
    } else if d3d_op == D3DBLENDOP_MIN {
        BlendOperation::Min
    } else if d3d_op == D3DBLENDOP_MAX {
        BlendOperation::Max
    } else {
        BlendOperation::Add
    }
}

/// The blend operation for a code; an unknown code adds.
pub fn d3d_to_metal_blend_op(d3d_op: u32) -> (r: BlendOperation)
    ensures
        r == d3d_to_metal_blend_op_spec(d3d_op),
{
    if d3d_op == D3DBLENDOP_SUBTRACT {
        BlendOperation::Subtract
    } else if d3d_op == D3DBLENDOP_REVSUBTRACT {
        BlendOperation::ReverseSubtract
    } else if d3d_op == D3DBLENDOP_MIN {
        BlendOperation::Min
    } else if d3d_op == D3DBLENDOP_MAX {
        BlendOperation::Max
    } else {
        BlendOperation::Add
    }
}

/// The depth bias that a decal gets when none was asked for, as the bits of a float.
pub const IMPLICIT_DECAL_BIAS_RAW: u32 = 0xb8d1_b717;

/// The slope scale that goes with it, as the bits of a float.
pub const IMPLICIT_DECAL_SLOPE_SCALE: u32 = 0xbfc0_0000;

/// What tells a decal from other draws.
#[derive(Clone, Copy, Debug)]
pub struct DecalHeuristicInputs {
    pub depth_enable: u32,
    pub depth_write: u32,
    pub blend_enable: u32,
    pub raw_depth_bias: u32,
    pub raw_slope_scale: u32,
}

/// Whether a draw looks like a decal: blended, tested by depth without writing it,
/// and with no bias of its own.
pub fn looks_like_decal(i: DecalHeuristicInputs) -> (r: bool)
    ensures
        r == (i.depth_enable != 0 && i.depth_write == 0 && i.blend_enable != 0 && i.raw_depth_bias
            == 0 && i.raw_slope_scale == 0),
{
    i.depth_enable != 0 && i.depth_write == 0 && i.blend_enable != 0 && i.raw_depth_bias == 0
        && i.raw_slope_scale == 0
}

/// The culling for a code; an unknown code culls nothing.
pub open spec fn d3d_to_metal_cull_spec(d3d_cull: u32) -> CullMode {
    if d3d_cull == D3DCULL_CW {
        CullMode::Front
    } else if d3d_cull == D3DCULL_CCW {
        CullMode::Back
    } else {
        CullMode::Disabled
    }
}

/// The culling for a code; an unknown code culls nothing.
pub fn d3d_to_metal_cull(d3d_cull: u32) -> (r: CullMode)
    ensures
        r == d3d_to_metal_cull_spec(d3d_cull),
{
    if d3d_cull == D3DCULL_CW {
        CullMode::Front
    } else if d3d_cull == D3DCULL_CCW {
        CullMode::Back
    } else {
        CullMode::Disabled
    }
}

/// The filter within a level for a code; an unknown code takes the nearest texel.
pub open spec fn d3d_to_metal_min_mag_filter_spec(d3d_filter: u32) -> MinMagFilter {
    if d3d_filter == D3DTEXF_LINEAR || d3d_filter == D3DTEXF_ANISOTROPIC {
        MinMagFilter::Linear
    } else {
        MinMagFilter::Nearest
    }
}

/// The filter within a level for a code; an unknown code takes the nearest texel.
pub fn d3d_to_metal_min_mag_filter(d3d_filter: u32) -> (r: MinMagFilter)
    ensures
        r == d3d_to_metal_min_mag_filter_spec(d3d_filter),
{
    if d3d_filter == D3DTEXF_LINEAR || d3d_filter == D3DTEXF_ANISOTROPIC {
        MinMagFilter::Linear
    } else {
        MinMagFilter::Nearest
    }
}

/// The filter between levels for a code; an unknown code uses one level.
pub open spec fn d3d_to_metal_mip_filter_spec(d3d_filter: u32) -> MipFilter {
    if d3d_filter == D3DTEXF_POINT {
        MipFilter::Nearest
    } else if d3d_filter == D3DTEXF_LINEAR || d3d_filter == D3DTEXF_ANISOTROPIC {
        MipFilter::Linear
    } else {
        MipFilter::NotMipmapped
    }
}

/// The filter between levels for a code; an unknown code uses one level.
pub fn d3d_to_metal_mip_filter(d3d_filter: u32) -> (r: MipFilter)
    ensures
        r == d3d_to_metal_mip_filter_spec(d3d_filter),
{
    if d3d_filter == D3DTEXF_POINT {
        MipFilter::Nearest
    } else if d3d_filter == D3DTEXF_LINEAR || d3d_filter == D3DTEXF_ANISOTROPIC {
        MipFilter::Linear
    } else {
        MipFilter::NotMipmapped
    }
}

/// The border colour that a colour is exactly, if there is one.
pub open spec fn border_color_preset_spec(color: u32) -> Option<BorderColor> {
    if color == 0 {
        Some(BorderColor::TransparentBlack)
    } else if color == 0xff00_0000 {
        Some(BorderColor::OpaqueBlack)
    } else if color == 0xffff_ffff {
        Some(BorderColor::OpaqueWhite)
    } else {
        None
    }
}

/// The border colour that a colour is exactly, if there is one.
pub fn border_color_preset(color: u32) -> (r: Option<BorderColor>)
    ensures
        r == border_color_preset_spec(color),
{
    if color == 0 {
        Some(BorderColor::TransparentBlack)
    } else if color == 0xff00_0000 {
        Some(BorderColor::OpaqueBlack)
    } else if color == 0xffff_ffff {
        Some(BorderColor::OpaqueWhite)
    } else {
        None
    }
}

/// The border colour for a colour: the exact one, or else opaque black.
pub fn d3d_border_color_to_metal(color: u32) -> (r: BorderColor)
    ensures
        r == match border_color_preset_spec(color) {
            Some(preset) => preset,
            None => BorderColor::OpaqueBlack,
        },
{
    match border_color_preset(color) {
        Some(preset) => preset,
        None => BorderColor::OpaqueBlack,
    }
}

/// The addressing for a code; an unknown code repeats.
pub open spec fn d3d_to_metal_address_mode_spec(d3d_mode: u32) -> AddressMode {
    if d3d_mode == D3DTADDRESS_MIRROR {
        AddressMode::MirrorRepeat
    } else if d3d_mode == D3DTADDRESS_CLAMP {
        AddressMode::ClampToEdge
    } else if d3d_mode == D3DTADDRESS_BORDER {
        AddressMode::ClampToBorderColor
    } else if d3d_mode == D3DTADDRESS_MIRRORONCE {
        AddressMode::MirrorClampToEdge
    } else {
        AddressMode::Repeat
    }
}

/// The addressing for a code; an unknown code repeats.
pub fn d3d_to_metal_address_mode(d3d_mode: u32) -> (r: AddressMode)
    ensures
        r == d3d_to_metal_address_mode_spec(d3d_mode),
{
    if d3d_mode == D3DTADDRESS_MIRROR {
        AddressMode::MirrorRepeat
    } else if d3d_mode == D3DTADDRESS_CLAMP {
        AddressMode::ClampToEdge
    } else if d3d_mode == D3DTADDRESS_BORDER {
        AddressMode::ClampToBorderColor
    } else if d3d_mode == D3DTADDRESS_MIRRORONCE {
        AddressMode::MirrorClampToEdge
    } else {
        AddressMode::Repeat
    }
}

/// The channels that a mask writes, from red in its lowest bit to alpha.
pub open spec fn d3d_to_metal_write_mask_spec(d3d_mask: u32) -> ColorWriteMask {
    ColorWriteMask {
        red: d3d_mask & 1 != 0,
        green: d3d_mask & 2 != 0,
        blue: d3d_mask & 4 != 0,
        alpha: d3d_mask & 8 != 0,
    }
}

/// The channels that a mask writes, from red in its lowest bit to alpha.
pub fn d3d_to_metal_write_mask(d3d_mask: u32) -> (r: ColorWriteMask)
    ensures
        r == d3d_to_metal_write_mask_spec(d3d_mask),
{
    ColorWriteMask {
        red: d3d_mask & 1 != 0,
        green: d3d_mask & 2 != 0,
        blue: d3d_mask & 4 != 0,
        alpha: d3d_mask & 8 != 0,
    }
}

/// What is drawn for a code; nothing for a fan or an unknown code.
pub open spec fn d3d_to_metal_primitive_spec(d3d_type: u32) -> Option<PrimitiveType> {
    if d3d_type == D3DPT_POINTLIST {
        Some(PrimitiveType::Point)
    } else if d3d_type == D3DPT_LINELIST {
        Some(PrimitiveType::Line)
    } else if d3d_type == D3DPT_LINESTRIP {
        Some(PrimitiveType::LineStrip)
    } else if d3d_type == D3DPT_TRIANGLELIST {
        Some(PrimitiveType::Triangle)
    } else if d3d_type == D3DPT_TRIANGLESTRIP {
        Some(PrimitiveType::TriangleStrip)
    } else {
        None
    }
}

/// What is drawn for a code; nothing for a fan or an unknown code.
pub fn d3d_to_metal_primitive(d3d_type: u32) -> (r: Option<PrimitiveType>)
    ensures
        r == d3d_to_metal_primitive_spec(d3d_type),
{
    if d3d_type == D3DPT_POINTLIST {
        Some(PrimitiveType::Point)
    } else if d3d_type == D3DPT_LINELIST {
        Some(PrimitiveType::Line)
    } else if d3d_type == D3DPT_LINESTRIP {
        Some(PrimitiveType::LineStrip)
    } else if d3d_type == D3DPT_TRIANGLELIST {
        Some(PrimitiveType::Triangle)
    } else if d3d_type == D3DPT_TRIANGLESTRIP {
        Some(PrimitiveType::TriangleStrip)
    } else {
        None
    }
}

/// How many vertices a number of primitives takes.
pub open spec fn vertex_count_spec(d3d_type: u32, primitive_count: u32) -> int {
    if d3d_type == D3DPT_POINTLIST {
        primitive_count as int
    } else if d3d_type == D3DPT_LINELIST {
        primitive_count * 2
    } else if d3d_type == D3DPT_LINESTRIP {
        primitive_count + 1
    } else if d3d_type == D3DPT_TRIANGLELIST {
        primitive_count * 3
    } else if d3d_type == D3DPT_TRIANGLESTRIP || d3d_type == D3DPT_TRIANGLEFAN {
        primitive_count + 2
    } else {
        0
    }
}

/// How many vertices a number of primitives takes; none for an unknown code.
pub fn vertex_count(d3d_type: u32, primitive_count: u32) -> (r: u32)
    requires
        vertex_count_spec(d3d_type, primitive_count) <= u32::MAX,
    ensures
        r == vertex_count_spec(d3d_type, primitive_count),
{
    if d3d_type == D3DPT_POINTLIST {
        primitive_count
    } else if d3d_type == D3DPT_LINELIST {
        primitive_count * 2
    } else if d3d_type == D3DPT_LINESTRIP {
        primitive_count + 1
    } else if d3d_type == D3DPT_TRIANGLELIST {
        primitive_count * 3
    } else if d3d_type == D3DPT_TRIANGLESTRIP || d3d_type == D3DPT_TRIANGLEFAN {
        primitive_count + 2
    } else {
        0
    }
}

} // verus!
