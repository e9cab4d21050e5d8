//! From Direct3D 9 values to their Metal counterparts.

pub mod bias;
pub mod color;
pub mod fan;
pub mod known;
pub mod meaning;
pub mod pixel_laws;
pub mod state;
pub mod vertex;

pub use bias::d3d_depth_bias_to_metal;
pub use color::{
    d3dcolor_fill_pixel_bytes, d3dcolor_to_rgba_f32, f32_to_f16_bits, splat_pixel_pattern,
    unorm_to_f32_bits,
};
pub use fan::{fan_pattern_bytes, fill_fan_pattern_u16, FanRewrite, FAN_PATTERN_MAX_TRIANGLES};
pub use known::{knows, CodeKind};
pub use state::{
    border_color_preset, d3d_border_color_to_metal, d3d_to_metal_address_mode, d3d_to_metal_blend,
    d3d_to_metal_blend_op, d3d_to_metal_blend_rt, d3d_to_metal_cmp, d3d_to_metal_cull,
    d3d_to_metal_min_mag_filter, d3d_to_metal_mip_filter, d3d_to_metal_primitive,
    d3d_to_metal_stencil_op, d3d_to_metal_write_mask, looks_like_decal, vertex_count,
    DecalHeuristicInputs, IMPLICIT_DECAL_BIAS_RAW, IMPLICIT_DECAL_SLOPE_SCALE,
};
pub use vertex::{
    decl_type_to_metal_format, ff_vs_layout_from_elements, fvf_to_elements, hash_elements,
    is_decl_end, pack_vertex_decl, resolve_attrs_for_ff, resolve_attrs_for_vs, FfVsLayout,
    FfVsLayoutFlags, InputSemantic, PackedVertexDecl, ResolvedAttrs,
};
