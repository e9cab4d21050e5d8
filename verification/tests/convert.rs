//! From Direct3D 9 values to their Metal counterparts.

use mtld3d_core::convert::{
    d3d_border_color_to_metal, d3d_to_metal_address_mode, d3d_to_metal_blend,
    d3d_to_metal_blend_op, d3d_to_metal_blend_rt, d3d_to_metal_cmp, d3d_to_metal_cull,
    d3d_to_metal_min_mag_filter, d3d_to_metal_mip_filter, d3d_to_metal_primitive,
    d3d_to_metal_stencil_op, d3d_to_metal_write_mask, hash_elements, knows, vertex_count, CodeKind,
    d3dcolor_fill_pixel_bytes, d3dcolor_to_rgba_f32, d3d_depth_bias_to_metal,
    decl_type_to_metal_format, f32_to_f16_bits, fan_pattern_bytes, ff_vs_layout_from_elements,
    fill_fan_pattern_u16, fvf_to_elements, looks_like_decal, pack_vertex_decl,
    resolve_attrs_for_ff, resolve_attrs_for_vs, splat_pixel_pattern, DecalHeuristicInputs,
    FanRewrite, InputSemantic, FAN_PATTERN_MAX_TRIANGLES, IMPLICIT_DECAL_BIAS_RAW,
};
use mtld3d_core::d3d9::{
    D3DDECLTYPE_D3DCOLOR, D3DDECLTYPE_DEC3N, D3DDECLTYPE_FLOAT1, D3DDECLTYPE_FLOAT16_2,
    D3DDECLTYPE_FLOAT16_4, D3DDECLTYPE_FLOAT2, D3DDECLTYPE_FLOAT3, D3DDECLTYPE_FLOAT4,
    D3DDECLTYPE_SHORT2, D3DDECLTYPE_SHORT2N, D3DDECLTYPE_SHORT4, D3DDECLTYPE_SHORT4N,
    D3DDECLTYPE_UBYTE4, D3DDECLTYPE_UBYTE4N, D3DDECLTYPE_UDEC3, D3DDECLTYPE_UNUSED,
    D3DDECLTYPE_USHORT2N, D3DDECLTYPE_USHORT4N, D3DDECLUSAGE_BLENDINDICES,
    D3DDECLUSAGE_BLENDWEIGHT, D3DDECLUSAGE_COLOR, D3DDECLUSAGE_NORMAL, D3DDECLUSAGE_POSITION,
    D3DDECLUSAGE_POSITIONT, D3DDECLUSAGE_TEXCOORD, D3DDECL_END_STREAM, D3DFMT_A16B16G16R16,
    D3DFMT_A16B16G16R16F, D3DFMT_A1R5G5B5, D3DFMT_A32B32G32R32F, D3DFMT_A4R4G4B4, D3DFMT_A8,
    D3DFMT_A8B8G8R8, D3DFMT_A8R8G8B8, D3DFMT_G16R16, D3DFMT_G16R16F, D3DFMT_G32R32F, D3DFMT_L8,
    D3DFMT_R16F, D3DFMT_R32F, D3DFMT_R5G6B5, D3DFMT_X1R5G5B5, D3DFMT_X8B8G8R8, D3DFMT_X8R8G8B8,
    D3DFVF_DIFFUSE, D3DFVF_LASTBETA_D3DCOLOR, D3DFVF_LASTBETA_UBYTE4, D3DFVF_NORMAL, D3DFVF_XYZ,
    D3DFVF_XYZB1, D3DFVF_XYZB2, D3DFVF_XYZB3, D3DFVF_XYZB4, D3DFVF_XYZB5, D3DFVF_XYZRHW,
    D3DFVF_XYZW, D3DTADDRESS_BORDER, D3DVERTEXELEMENT9,
};
use mtld3d_core::dxso::DeclUsage;
use mtld3d_core::metal::{
    AddressMode, BlendFactor, BlendOperation, BorderColor, CompareFunc, CullMode, IndexType,
    MinMagFilter, MipFilter, PrimitiveType, StencilOp, VertexFormat,
};

fn u16_indices(bytes: &[u8]) -> Vec<u16> {
    bytes
        .chunks_exact(2)
        .map(|c| u16::from_le_bytes([c[0], c[1]]))
        .collect()
}

fn u32_indices(bytes: &[u8]) -> Vec<u32> {
    bytes
        .chunks_exact(4)
        .map(|c| u32::from_le_bytes([c[0], c[1], c[2], c[3]]))
        .collect()
}

/// The whole index list a rewrite produces, into a buffer of its own size.
fn rewritten(fan: &FanRewrite) -> Vec<u8> {
    let mut out = vec![0xAAu8; fan.byte_len()];
    fan.write(&mut out);
    out
}

/// `count` little-endian indices of `size` bytes each.
fn index_stream(indices: &[u32], size: usize) -> Vec<u8> {
    indices
        .iter()
        .flat_map(|i| i.to_le_bytes().into_iter().take(size))
        .collect()
}

#[test]
fn nonindexed_fan_becomes_absolute_u16_triangles() {
    // DrawPrimitive(FAN, start 10, 3 prims): fan vertices 10..=14.
    let fan = FanRewrite::sequential(10, 3).expect("fits");
    assert_eq!(fan.index_type(), IndexType::UInt16);
    assert_eq!(fan.index_count(), 9);
    assert_eq!(fan.byte_len(), 18);
    assert_eq!(
        u16_indices(&rewritten(&fan)),
        vec![10, 11, 12, 10, 12, 13, 10, 13, 14]
    );
    assert_eq!((fan.min_vertex(), fan.max_vertex()), (10, 14));
}

#[test]
fn fan_rewrite_writes_only_the_triangles_that_fit() {
    // The draw path sizes the arena block with `byte_len`; a shorter buffer
    // is filled with whole triangles and the rest left alone.
    let fan = FanRewrite::sequential(0, 3).expect("fits");
    let mut short = vec![0xAAu8; 6];
    fan.write(&mut short);
    assert_eq!(u16_indices(&short), vec![0, 1, 2]);
}

#[test]
fn fan_pattern_is_the_relative_fan_and_clips_to_the_buffer() {
    let mut out = vec![0xAAu8; fan_pattern_bytes(3)];
    fill_fan_pattern_u16(&mut out, 3);
    assert_eq!(u16_indices(&out), vec![0, 1, 2, 0, 2, 3, 0, 3, 4]);
    // Asking for more triangles than the buffer holds writes what fits.
    let mut short = vec![0xAAu8; fan_pattern_bytes(1)];
    fill_fan_pattern_u16(&mut short, 5);
    assert_eq!(u16_indices(&short), vec![0, 1, 2]);
    // The last addressable triangle ends exactly at u16::MAX.
    let mut tail = vec![0u8; fan_pattern_bytes(FAN_PATTERN_MAX_TRIANGLES)];
    fill_fan_pattern_u16(&mut tail, FAN_PATTERN_MAX_TRIANGLES);
    assert_eq!(
        &u16_indices(&tail)[tail.len() / 2 - 3..],
        &[0, u16::MAX - 1, u16::MAX]
    );
}

#[test]
fn fan_widens_to_u32_past_u16_range() {
    let fan = FanRewrite::sequential(0xFFFE, 1).expect("fits");
    assert_eq!(fan.index_type(), IndexType::UInt32);
    assert_eq!(fan.byte_len(), 12);
    assert_eq!(
        u32_indices(&rewritten(&fan)),
        vec![0xFFFE, 0xFFFF, 0x1_0000]
    );
    assert!(FanRewrite::sequential(u32::MAX - 1, 1).is_none());
}

#[test]
fn indexed_fan_folds_the_base_vertex_in() {
    // 16-bit app indices 5,6,7,8 with base vertex 100: triangles over
    // 105..=108.
    let src = index_stream(&[5, 6, 7, 8], 2);
    let fan = FanRewrite::indexed(&src, 2, 100, 2).expect("fits");
    assert_eq!(fan.index_type(), IndexType::UInt16);
    assert_eq!(
        u16_indices(&rewritten(&fan)),
        vec![105, 106, 107, 105, 107, 108]
    );
    assert_eq!((fan.min_vertex(), fan.max_vertex()), (105, 108));
    // A negative base is legal as long as no index goes below zero.
    let fan = FanRewrite::indexed(&src, 2, -5, 2).expect("fits");
    assert_eq!(u16_indices(&rewritten(&fan)), vec![0, 1, 2, 0, 2, 3]);
    assert!(FanRewrite::indexed(&src, 2, -6, 2).is_none());
}

#[test]
fn indexed_fan_reads_32_bit_indices_and_rejects_short_streams() {
    let src = index_stream(&[1, 2, 0x2_0000], 4);
    let fan = FanRewrite::indexed(&src, 4, 0, 1).expect("fits");
    assert_eq!(fan.index_type(), IndexType::UInt32);
    assert_eq!(u32_indices(&rewritten(&fan)), vec![1, 2, 0x2_0000]);
    assert!(FanRewrite::indexed(&src, 4, 0, 2).is_none());
    assert!(FanRewrite::indexed(&src, 3, 0, 1).is_none());
    // A 32-bit stream every index of which fits 16 bits narrows, halving
    // the bytes the draw stages.
    let narrow = index_stream(&[1, 2, 3, 4], 4);
    let fan = FanRewrite::indexed(&narrow, 4, 0, 2).expect("fits");
    assert_eq!(fan.index_type(), IndexType::UInt16);
    assert_eq!(fan.byte_len(), 12);
    assert_eq!(u16_indices(&rewritten(&fan)), vec![1, 2, 3, 1, 3, 4]);
}

fn pos3() -> D3DVERTEXELEMENT9 {
    D3DVERTEXELEMENT9 {
        stream: 0,
        offset: 0,
        type_: D3DDECLTYPE_FLOAT3,
        method: 0,
        usage: D3DDECLUSAGE_POSITION,
        usage_index: 0,
    }
}

fn tex0(offset: u16) -> D3DVERTEXELEMENT9 {
    D3DVERTEXELEMENT9 {
        stream: 0,
        offset,
        type_: D3DDECLTYPE_FLOAT2,
        method: 0,
        usage: D3DDECLUSAGE_TEXCOORD,
        usage_index: 0,
    }
}

fn to_bits4(arr: [f32; 4]) -> [u32; 4] {
    [
        arr[0].to_bits(),
        arr[1].to_bits(),
        arr[2].to_bits(),
        arr[3].to_bits(),
    ]
}

#[test]
fn d3dcolor_to_rgba_default_is_white() {
    // D3DRS_BLENDFACTOR's default is 0xFFFFFFFF (opaque white).
    let rgba = d3dcolor_to_rgba_f32(0xFFFF_FFFF);
    assert_eq!(rgba, to_bits4([1.0, 1.0, 1.0, 1.0]));
}

#[test]
fn d3dcolor_to_rgba_zero_is_transparent_black() {
    let rgba = d3dcolor_to_rgba_f32(0x0000_0000);
    assert_eq!(rgba, to_bits4([0.0, 0.0, 0.0, 0.0]));
}

#[test]
fn d3dcolor_to_rgba_argb_byte_order() {
    // 0xAARRGGBB. A=0x80, R=0x40, G=0x20, B=0x10. The u8→f32 path
    // is exact (each byte fits f32 mantissa), so bit-equality holds.
    let rgba = d3dcolor_to_rgba_f32(0x8040_2010);
    assert_eq!(rgba[0], (f32::from(0x40u8) / 255.0).to_bits());
    assert_eq!(rgba[1], (f32::from(0x20u8) / 255.0).to_bits());
    assert_eq!(rgba[2], (f32::from(0x10u8) / 255.0).to_bits());
    assert_eq!(rgba[3], (f32::from(0x80u8) / 255.0).to_bits());
}

#[test]
fn color_fill_a8r8g8b8_roundtrips_the_d3dcolor() {
    // BGRA8 bytes read back as the same D3DCOLOR: filling 0xdeadbeef must
    // read back 0xdeadbeef.
    let bytes = d3dcolor_fill_pixel_bytes(0xdead_beef, D3DFMT_A8R8G8B8).unwrap();
    assert_eq!(bytes, vec![0xef, 0xbe, 0xad, 0xde]);
    assert_eq!(
        u32::from_le_bytes([bytes[0], bytes[1], bytes[2], bytes[3]]),
        0xdead_beef
    );
}

#[test]
fn color_fill_reversed_channel_formats_store_rgba_order() {
    // The A8B8G8R8 family stores R, G, B then alpha in ascending addresses,
    // so the same D3DCOLOR lands in the reverse byte order of A8R8G8B8.
    let bytes = d3dcolor_fill_pixel_bytes(0xdead_beef, D3DFMT_A8B8G8R8).unwrap();
    assert_eq!(bytes, vec![0xad, 0xbe, 0xef, 0xde]);
    assert_eq!(
        d3dcolor_fill_pixel_bytes(0xdead_beef, D3DFMT_X8B8G8R8).unwrap(),
        bytes,
        "the X member shares the layout; its fourth byte is ignored on read"
    );
}

#[test]
fn color_fill_r32f_is_red_channel_normalized() {
    // R=0xad → 0xad/255.0: ColorFill promotes the red byte to a
    // normalized float.
    let bytes = d3dcolor_fill_pixel_bytes(0x00ad_0000, D3DFMT_R32F).unwrap();
    let f = f32::from_le_bytes([bytes[0], bytes[1], bytes[2], bytes[3]]);
    assert_eq!(f.to_bits(), (f32::from(0xadu8) / 255.0).to_bits());
}

#[test]
fn color_fill_r5g6b5_packs_top_bits() {
    // Filling 0xdeadbeef into an R5G6B5 surface packs to the 16-bit value
    // 0xadfd (R=0xad>>3, G=0xbe>>2, B=0xef>>3).
    let bytes = d3dcolor_fill_pixel_bytes(0xdead_beef, D3DFMT_R5G6B5).unwrap();
    assert_eq!(u16::from_le_bytes([bytes[0], bytes[1]]), 0xadfd);
}

#[test]
fn color_fill_packed_5551_takes_the_top_bits() {
    // 0xdeadbeef into A1R5G5B5: A=0xde>>7=1, R=0xad>>3, G=0xbe>>3, B=0xef>>3
    // pack to 0xd6fd. X1R5G5B5 shares the layout, so it shares the encoding.
    let bytes = d3dcolor_fill_pixel_bytes(0xdead_beef, D3DFMT_A1R5G5B5).unwrap();
    assert_eq!(u16::from_le_bytes([bytes[0], bytes[1]]), 0xd6fd);
    let bytes = d3dcolor_fill_pixel_bytes(0xdead_beef, D3DFMT_X1R5G5B5).unwrap();
    assert_eq!(u16::from_le_bytes([bytes[0], bytes[1]]), 0xd6fd);
    // An alpha below half clears the top bit rather than rounding it up.
    let bytes = d3dcolor_fill_pixel_bytes(0x7fad_beef, D3DFMT_A1R5G5B5).unwrap();
    assert_eq!(u16::from_le_bytes([bytes[0], bytes[1]]), 0x56fd);
}

#[test]
fn color_fill_packed_4444_takes_the_top_nibbles() {
    // 0xdeadbeef into A4R4G4B4 keeps the high nibble of each channel in
    // A, R, G, B order: 0xdabe.
    let bytes = d3dcolor_fill_pixel_bytes(0xdead_beef, D3DFMT_A4R4G4B4).unwrap();
    assert_eq!(u16::from_le_bytes([bytes[0], bytes[1]]), 0xdabe);
    // Every channel saturated packs to every bit set.
    let bytes = d3dcolor_fill_pixel_bytes(0xffff_ffff, D3DFMT_A4R4G4B4).unwrap();
    assert_eq!(u16::from_le_bytes([bytes[0], bytes[1]]), 0xffff);
}

#[test]
fn color_fill_l8_is_the_rec709_luminance() {
    // 0.2125*0xad + 0.7154*0xbe + 0.0721*0xef = 190.42 -> 0xbe.
    assert_eq!(
        d3dcolor_fill_pixel_bytes(0xdead_beef, D3DFMT_L8).unwrap(),
        vec![0xbe]
    );
    // The luminance ignores alpha, and the weights sum to one, so white
    // stays white and black stays black.
    assert_eq!(
        d3dcolor_fill_pixel_bytes(0x00ff_ffff, D3DFMT_L8).unwrap(),
        vec![0xff]
    );
    assert_eq!(
        d3dcolor_fill_pixel_bytes(0xff00_0000, D3DFMT_L8).unwrap(),
        vec![0x00]
    );
    // A pure-green colour keeps the green weight alone: 0.7154*0xff = 182.4.
    assert_eq!(
        d3dcolor_fill_pixel_bytes(0x0000_ff00, D3DFMT_L8).unwrap(),
        vec![182]
    );
}

#[test]
fn color_fill_a8_is_the_alpha_byte() {
    // An alpha-only destination takes the D3DCOLOR's alpha and nothing else.
    assert_eq!(
        d3dcolor_fill_pixel_bytes(0xdead_beef, D3DFMT_A8).unwrap(),
        vec![0xde]
    );
    assert_eq!(
        d3dcolor_fill_pixel_bytes(0x00ff_ffff, D3DFMT_A8).unwrap(),
        vec![0x00]
    );
}

#[test]
fn color_fill_unsupported_format_is_none() {
    // Block-compressed / unmapped formats aren't encoded yet. (The packed
    // 16-bit formats ARE encoded — on a device that expands them to BGRA8
    // the 16-bit fill page rides the ordinary upload, which widens it.)
    assert!(d3dcolor_fill_pixel_bytes(0xffff_ffff, D3DFMT_X8R8G8B8).is_some());
    assert!(d3dcolor_fill_pixel_bytes(0xffff_ffff, 0x0000_0000).is_none());
}

#[test]
fn decl_type_to_metal_format_table() {
    // Each D3DDECLTYPE we support maps to a typed VertexFormat and a
    // size. If anyone flips a mapping here without updating both sides,
    // this catches it.
    assert_eq!(
        decl_type_to_metal_format(D3DDECLTYPE_FLOAT1),
        (VertexFormat::Float, 4)
    );
    assert_eq!(
        decl_type_to_metal_format(D3DDECLTYPE_FLOAT2),
        (VertexFormat::Float2, 8)
    );
    assert_eq!(
        decl_type_to_metal_format(D3DDECLTYPE_FLOAT3),
        (VertexFormat::Float3, 12)
    );
    assert_eq!(
        decl_type_to_metal_format(D3DDECLTYPE_FLOAT4),
        (VertexFormat::Float4, 16)
    );
    assert_eq!(
        decl_type_to_metal_format(D3DDECLTYPE_D3DCOLOR),
        (VertexFormat::UChar4NormalizedBgra, 4)
    );
    assert_eq!(
        decl_type_to_metal_format(D3DDECLTYPE_UBYTE4),
        (VertexFormat::UChar4, 4)
    );
    assert_eq!(
        decl_type_to_metal_format(D3DDECLTYPE_UBYTE4N),
        (VertexFormat::UChar4Normalized, 4)
    );
    assert_eq!(
        decl_type_to_metal_format(D3DDECLTYPE_SHORT2),
        (VertexFormat::Short2, 4)
    );
    assert_eq!(
        decl_type_to_metal_format(D3DDECLTYPE_SHORT4),
        (VertexFormat::Short4, 8)
    );
    assert_eq!(
        decl_type_to_metal_format(D3DDECLTYPE_SHORT2N),
        (VertexFormat::Short2Normalized, 4)
    );
    assert_eq!(
        decl_type_to_metal_format(D3DDECLTYPE_SHORT4N),
        (VertexFormat::Short4Normalized, 8)
    );
    assert_eq!(
        decl_type_to_metal_format(D3DDECLTYPE_USHORT2N),
        (VertexFormat::UShort2Normalized, 4)
    );
    assert_eq!(
        decl_type_to_metal_format(D3DDECLTYPE_USHORT4N),
        (VertexFormat::UShort4Normalized, 8)
    );
    assert_eq!(
        decl_type_to_metal_format(D3DDECLTYPE_FLOAT16_2),
        (VertexFormat::Half2, 4)
    );
    assert_eq!(
        decl_type_to_metal_format(D3DDECLTYPE_FLOAT16_4),
        (VertexFormat::Half4, 8)
    );
    // Unsupported types report INVALID so the caller can skip.
    assert_eq!(
        decl_type_to_metal_format(D3DDECLTYPE_UDEC3),
        (VertexFormat::Invalid, 0)
    );
    assert_eq!(
        decl_type_to_metal_format(D3DDECLTYPE_DEC3N),
        (VertexFormat::Invalid, 0)
    );
}

#[test]
fn fvf_synthesize_elements_position_normal_tex1() {
    let (elems, stride) = fvf_to_elements(D3DFVF_XYZ | D3DFVF_NORMAL | (1 << 8));
    assert_eq!(elems.len(), 3);
    assert_eq!(elems[0].usage, D3DDECLUSAGE_POSITION);
    assert_eq!(elems[0].type_, D3DDECLTYPE_FLOAT3);
    assert_eq!(elems[0].offset, 0);
    assert_eq!(elems[1].usage, D3DDECLUSAGE_NORMAL);
    assert_eq!(elems[1].offset, 12);
    assert_eq!(elems[2].usage, D3DDECLUSAGE_TEXCOORD);
    assert_eq!(elems[2].usage_index, 0);
    assert_eq!(elems[2].offset, 24);
    assert_eq!(stride, 32);
}

#[test]
fn fvf_synthesize_elements_xyzrhw_diffuse_tex1() {
    let (elems, stride) = fvf_to_elements(D3DFVF_XYZRHW | D3DFVF_DIFFUSE | (1 << 8));
    assert_eq!(elems.len(), 3);
    assert_eq!(elems[0].usage, D3DDECLUSAGE_POSITIONT);
    assert_eq!(elems[0].type_, D3DDECLTYPE_FLOAT4);
    assert_eq!(elems[1].usage, D3DDECLUSAGE_COLOR);
    assert_eq!(elems[1].usage_index, 0);
    assert_eq!(elems[1].type_, D3DDECLTYPE_D3DCOLOR);
    assert_eq!(elems[1].offset, 16);
    assert_eq!(elems[2].usage, D3DDECLUSAGE_TEXCOORD);
    assert_eq!(elems[2].offset, 20);
    assert_eq!(stride, 28);
}

#[test]
fn fvf_to_elements_matches_d3d9_blend_matrix() {
    // Each row is (type_, usage, usage_index, offset); the table maps an
    // fvf to its expected element rows via the canonical D3D9 FVF ->
    // declaration conversion. Covers every XYZBn / LASTBETA combination,
    // including the XYZB2|D3DCOLOR quirk (weight = D3DCOLOR, index =
    // UBYTE4).
    type Row = (u8, u8, u8, u16);
    let cases: &[(u32, &[Row])] = &[
        (
            D3DFVF_XYZ,
            &[(D3DDECLTYPE_FLOAT3, D3DDECLUSAGE_POSITION, 0, 0)],
        ),
        (
            D3DFVF_XYZW,
            &[(D3DDECLTYPE_FLOAT4, D3DDECLUSAGE_POSITION, 0, 0)],
        ),
        (
            D3DFVF_XYZRHW,
            &[(D3DDECLTYPE_FLOAT4, D3DDECLUSAGE_POSITIONT, 0, 0)],
        ),
        (
            D3DFVF_XYZB1,
            &[
                (D3DDECLTYPE_FLOAT3, D3DDECLUSAGE_POSITION, 0, 0),
                (D3DDECLTYPE_FLOAT1, D3DDECLUSAGE_BLENDWEIGHT, 0, 12),
            ],
        ),
        (
            D3DFVF_XYZB1 | D3DFVF_LASTBETA_UBYTE4,
            &[
                (D3DDECLTYPE_FLOAT3, D3DDECLUSAGE_POSITION, 0, 0),
                (D3DDECLTYPE_UBYTE4, D3DDECLUSAGE_BLENDINDICES, 0, 12),
            ],
        ),
        (
            D3DFVF_XYZB1 | D3DFVF_LASTBETA_D3DCOLOR,
            &[
                (D3DDECLTYPE_FLOAT3, D3DDECLUSAGE_POSITION, 0, 0),
                (D3DDECLTYPE_D3DCOLOR, D3DDECLUSAGE_BLENDINDICES, 0, 12),
            ],
        ),
        (
            D3DFVF_XYZB2,
            &[
                (D3DDECLTYPE_FLOAT3, D3DDECLUSAGE_POSITION, 0, 0),
                (D3DDECLTYPE_FLOAT2, D3DDECLUSAGE_BLENDWEIGHT, 0, 12),
            ],
        ),
        (
            D3DFVF_XYZB2 | D3DFVF_LASTBETA_UBYTE4,
            &[
                (D3DDECLTYPE_FLOAT3, D3DDECLUSAGE_POSITION, 0, 0),
                (D3DDECLTYPE_FLOAT1, D3DDECLUSAGE_BLENDWEIGHT, 0, 12),
                (D3DDECLTYPE_UBYTE4, D3DDECLUSAGE_BLENDINDICES, 0, 16),
            ],
        ),
        (
            D3DFVF_XYZB2 | D3DFVF_LASTBETA_D3DCOLOR,
            &[
                (D3DDECLTYPE_FLOAT3, D3DDECLUSAGE_POSITION, 0, 0),
                (D3DDECLTYPE_D3DCOLOR, D3DDECLUSAGE_BLENDWEIGHT, 0, 12),
                (D3DDECLTYPE_UBYTE4, D3DDECLUSAGE_BLENDINDICES, 0, 16),
            ],
        ),
        (
            D3DFVF_XYZB3,
            &[
                (D3DDECLTYPE_FLOAT3, D3DDECLUSAGE_POSITION, 0, 0),
                (D3DDECLTYPE_FLOAT3, D3DDECLUSAGE_BLENDWEIGHT, 0, 12),
            ],
        ),
        (
            D3DFVF_XYZB3 | D3DFVF_LASTBETA_UBYTE4,
            &[
                (D3DDECLTYPE_FLOAT3, D3DDECLUSAGE_POSITION, 0, 0),
                (D3DDECLTYPE_FLOAT2, D3DDECLUSAGE_BLENDWEIGHT, 0, 12),
                (D3DDECLTYPE_UBYTE4, D3DDECLUSAGE_BLENDINDICES, 0, 20),
            ],
        ),
        (
            D3DFVF_XYZB3 | D3DFVF_LASTBETA_D3DCOLOR,
            &[
                (D3DDECLTYPE_FLOAT3, D3DDECLUSAGE_POSITION, 0, 0),
                (D3DDECLTYPE_FLOAT2, D3DDECLUSAGE_BLENDWEIGHT, 0, 12),
                (D3DDECLTYPE_D3DCOLOR, D3DDECLUSAGE_BLENDINDICES, 0, 20),
            ],
        ),
        (
            D3DFVF_XYZB4,
            &[
                (D3DDECLTYPE_FLOAT3, D3DDECLUSAGE_POSITION, 0, 0),
                (D3DDECLTYPE_FLOAT4, D3DDECLUSAGE_BLENDWEIGHT, 0, 12),
            ],
        ),
        (
            D3DFVF_XYZB4 | D3DFVF_LASTBETA_UBYTE4,
            &[
                (D3DDECLTYPE_FLOAT3, D3DDECLUSAGE_POSITION, 0, 0),
                (D3DDECLTYPE_FLOAT3, D3DDECLUSAGE_BLENDWEIGHT, 0, 12),
                (D3DDECLTYPE_UBYTE4, D3DDECLUSAGE_BLENDINDICES, 0, 24),
            ],
        ),
        (
            D3DFVF_XYZB4 | D3DFVF_LASTBETA_D3DCOLOR,
            &[
                (D3DDECLTYPE_FLOAT3, D3DDECLUSAGE_POSITION, 0, 0),
                (D3DDECLTYPE_FLOAT3, D3DDECLUSAGE_BLENDWEIGHT, 0, 12),
                (D3DDECLTYPE_D3DCOLOR, D3DDECLUSAGE_BLENDINDICES, 0, 24),
            ],
        ),
        (
            D3DFVF_XYZB5,
            &[
                (D3DDECLTYPE_FLOAT3, D3DDECLUSAGE_POSITION, 0, 0),
                (D3DDECLTYPE_FLOAT4, D3DDECLUSAGE_BLENDWEIGHT, 0, 12),
                (D3DDECLTYPE_FLOAT1, D3DDECLUSAGE_BLENDINDICES, 0, 28),
            ],
        ),
        (
            D3DFVF_XYZB5 | D3DFVF_LASTBETA_UBYTE4,
            &[
                (D3DDECLTYPE_FLOAT3, D3DDECLUSAGE_POSITION, 0, 0),
                (D3DDECLTYPE_FLOAT4, D3DDECLUSAGE_BLENDWEIGHT, 0, 12),
                (D3DDECLTYPE_UBYTE4, D3DDECLUSAGE_BLENDINDICES, 0, 28),
            ],
        ),
        (
            D3DFVF_XYZB5 | D3DFVF_LASTBETA_D3DCOLOR,
            &[
                (D3DDECLTYPE_FLOAT3, D3DDECLUSAGE_POSITION, 0, 0),
                (D3DDECLTYPE_FLOAT4, D3DDECLUSAGE_BLENDWEIGHT, 0, 12),
                (D3DDECLTYPE_D3DCOLOR, D3DDECLUSAGE_BLENDINDICES, 0, 28),
            ],
        ),
    ];
    for (fvf, expected) in cases {
        let (elems, _stride) = fvf_to_elements(*fvf);
        assert_eq!(
            elems.len(),
            expected.len(),
            "element count for fvf {fvf:#x}"
        );
        for (i, (ty, usage, usage_index, offset)) in expected.iter().enumerate() {
            assert_eq!(elems[i].type_, *ty, "type fvf {fvf:#x} elem {i}");
            assert_eq!(elems[i].usage, *usage, "usage fvf {fvf:#x} elem {i}");
            assert_eq!(
                elems[i].usage_index, *usage_index,
                "usage_index fvf {fvf:#x} elem {i}"
            );
            assert_eq!(elems[i].offset, *offset, "offset fvf {fvf:#x} elem {i}");
            assert_eq!(elems[i].stream, 0, "stream fvf {fvf:#x} elem {i}");
            assert_eq!(elems[i].method, 0, "method fvf {fvf:#x} elem {i}");
        }
    }
}

#[test]
fn fvf_synthesize_elements_xyzb3() {
    let (elems, stride) = fvf_to_elements(D3DFVF_XYZB3);
    // XYZB3 with no LASTBETA flag: 3 floats position + 3 blend weights.
    assert_eq!(elems.len(), 2);
    assert_eq!(elems[0].usage, D3DDECLUSAGE_POSITION);
    assert_eq!(elems[1].usage, D3DDECLUSAGE_BLENDWEIGHT);
    assert_eq!(elems[1].type_, D3DDECLTYPE_FLOAT3);
    assert_eq!(stride, 24);
}

#[test]
fn resolve_attrs_for_vs_swaps_register_indices() {
    // VS declares position on v2 and texcoord0 on v7 — the resolved
    // attr_index must match the register, not the FVF convention.
    let semantics = vec![
        InputSemantic {
            usage: DeclUsage::Position,
            usage_index: 0,
            register_index: 2,
        },
        InputSemantic {
            usage: DeclUsage::Texcoord,
            usage_index: 0,
            register_index: 7,
        },
    ];
    let elems = [pos3(), tex0(12)];
    let resolved = resolve_attrs_for_vs(&elems, &semantics);
    assert_eq!(resolved.attrs.len(), 2);
    assert_eq!(resolved.attrs[0].attr_index, 2);
    assert_eq!(resolved.attrs[1].attr_index, 7);
    assert_eq!(resolved.extents[0], 20);
    assert_eq!(resolved.used_streams, 0b1);
}

#[test]
fn resolve_attrs_skips_unused_semantics() {
    // VS declares only POSITION; NORMAL in the decl is silently dropped.
    let semantics = vec![InputSemantic {
        usage: DeclUsage::Position,
        usage_index: 0,
        register_index: 0,
    }];
    let elems = [
        pos3(),
        D3DVERTEXELEMENT9 {
            stream: 0,
            offset: 12,
            type_: D3DDECLTYPE_FLOAT3,
            method: 0,
            usage: D3DDECLUSAGE_NORMAL,
            usage_index: 0,
        },
    ];
    let resolved = resolve_attrs_for_vs(&elems, &semantics);
    assert_eq!(resolved.attrs.len(), 1);
    assert_eq!(resolved.attrs[0].attr_index, 0);
    // The extent covers only the consumed position: the unconsumed normal
    // is not in the descriptor, and counting it would force the layout
    // stride past a packed buffer's true per-vertex span.
    assert_eq!(resolved.extents[0], 12);
}

#[test]
fn resolve_attrs_for_ff_matches_ff_convention() {
    // POSITION → attr(0), TEXCOORD0 → attr(4). Must agree with
    // `crate::dxso::ff_attr_index_for_semantic`.
    let elems = [pos3(), tex0(12)];
    let resolved = resolve_attrs_for_ff(&elems);
    assert_eq!(resolved.attrs.len(), 2);
    assert_eq!(resolved.attrs[0].attr_index, 0);
    assert_eq!(resolved.attrs[1].attr_index, 4);
    assert_eq!(resolved.extents[0], 20);
}

#[test]
fn resolve_attrs_keeps_each_stream_separate() {
    // POSITION on stream 0, COLOR0 on stream 1 at offset 0, an unconsumed
    // NORMAL on stream 1 past it: stream 1's extent stops at the colour,
    // the colour attribute points at buffer 1, and both streams are used.
    let elems = [
        pos3(),
        D3DVERTEXELEMENT9 {
            stream: 1,
            offset: 0,
            type_: D3DDECLTYPE_D3DCOLOR,
            method: 0,
            usage: D3DDECLUSAGE_COLOR,
            usage_index: 0,
        },
        D3DVERTEXELEMENT9 {
            stream: 1,
            offset: 4,
            type_: D3DDECLTYPE_FLOAT3,
            method: 0,
            usage: D3DDECLUSAGE_NORMAL,
            usage_index: 0,
        },
    ];
    let semantics = vec![
        InputSemantic {
            usage: DeclUsage::Position,
            usage_index: 0,
            register_index: 0,
        },
        InputSemantic {
            usage: DeclUsage::Color,
            usage_index: 0,
            register_index: 1,
        },
    ];
    let resolved = resolve_attrs_for_vs(&elems, &semantics);
    assert_eq!(resolved.attrs.len(), 2);
    assert_eq!(resolved.attrs[0].buffer_index, 0);
    assert_eq!(resolved.attrs[1].buffer_index, 1);
    assert_eq!(resolved.attrs[1].attr_index, 1);
    assert_eq!(resolved.extents[0], 12);
    assert_eq!(resolved.extents[1], 4);
    assert_eq!(resolved.used_streams, 0b11);

    // A stream that only carries unconsumed elements is not used and
    // reports no extent — nothing in the descriptor reads from it.
    let resolved = resolve_attrs_for_vs(&elems, &semantics[..1]);
    assert_eq!(resolved.used_streams, 0b1);
    assert_eq!(resolved.extents[1], 0);

    // The FF path maps streams the same way.
    let resolved = resolve_attrs_for_ff(&elems);
    assert_eq!(resolved.attrs.len(), 3);
    assert_eq!(resolved.attrs[1].buffer_index, 1);
    assert_eq!(resolved.used_streams, 0b11);
}

#[test]
fn resolve_attrs_drops_streams_past_the_slot_table() {
    let elems = [
        pos3(),
        D3DVERTEXELEMENT9 {
            stream: 16,
            offset: 0,
            type_: D3DDECLTYPE_D3DCOLOR,
            method: 0,
            usage: D3DDECLUSAGE_COLOR,
            usage_index: 0,
        },
    ];
    let resolved = resolve_attrs_for_ff(&elems);
    assert_eq!(resolved.attrs.len(), 1);
    assert_eq!(resolved.used_streams, 0b1);
    let layout = ff_vs_layout_from_elements(&elems);
    assert!(
        !layout.has_color0(),
        "dropped element leaves no flag behind"
    );
}

fn end() -> D3DVERTEXELEMENT9 {
    D3DVERTEXELEMENT9 {
        stream: D3DDECL_END_STREAM,
        offset: 0,
        type_: D3DDECLTYPE_UNUSED,
        method: 0,
        usage: 0,
        usage_index: 0,
    }
}

#[test]
fn pack_vertex_decl_hash_stable_across_calls() {
    let elems = [pos3(), tex0(12), end()];
    let h_a = pack_vertex_decl(&elems).expect("pack a").hash;
    let h_b = pack_vertex_decl(&elems).expect("pack b").hash;
    assert_eq!(h_a, h_b);
    let swapped = [pos3(), tex0(16), end()];
    let h_c = pack_vertex_decl(&swapped).expect("pack c").hash;
    assert_ne!(h_a, h_c);
}

#[test]
fn pack_vertex_decl_multi_stream_distinct_hash_and_mask() {
    // Two layouts that differ *only* by stream must hash differently so
    // the pipeline cache keeps them apart, and the stream mask names the
    // streams the draw path has to snapshot.
    let on_stream = |stream| D3DVERTEXELEMENT9 {
        stream,
        offset: 0,
        type_: D3DDECLTYPE_FLOAT3,
        method: 0,
        usage: D3DDECLUSAGE_POSITION,
        usage_index: 0,
    };
    let a = pack_vertex_decl(&[on_stream(0), end()]).expect("stream 0 accepted");
    let b = pack_vertex_decl(&[on_stream(1), end()]).expect("stream 1 accepted");
    assert_ne!(a.hash, b.hash, "stream must participate in the decl hash");
    assert_eq!(a.stream_mask, 0b01);
    assert_eq!(b.stream_mask, 0b10);
    let both = pack_vertex_decl(&[on_stream(0), tex0(0), on_stream(3), end()]).expect("pack");
    assert_eq!(both.stream_mask, 0b1001);
    // A stream past the slot table is accepted (D3D9 validates structure
    // only) but contributes no bit.
    let wide = pack_vertex_decl(&[on_stream(0), on_stream(16), end()]).expect("pack");
    assert_eq!(wide.stream_mask, 0b1);
}

#[test]
fn pack_vertex_decl_requires_terminator() {
    assert!(pack_vertex_decl(&[pos3()]).is_none());
}

#[test]
fn pack_vertex_decl_preserves_terminator_in_output() {
    let elems = [pos3(), tex0(12), end()];
    let packed = pack_vertex_decl(&elems).expect("pack").elements_with_end;
    assert_eq!(packed.len(), 3);
    assert_eq!(packed.last().unwrap().stream, D3DDECL_END_STREAM);
}

#[test]
fn ff_vs_layout_clamps_tex_coord_count_to_8() {
    // A vertex declaration that claims TEXCOORD at usage_index = 12
    // must not produce tex_coord_count > 8 — FfVsKey's per-stage
    // arrays are [u8; 8] and OOB-crashed the encoder thread.
    let elements = [
        pos3(),
        D3DVERTEXELEMENT9 {
            stream: 0,
            offset: 12,
            type_: D3DDECLTYPE_FLOAT2,
            method: 0,
            usage: D3DDECLUSAGE_TEXCOORD,
            usage_index: 12,
        },
    ];
    let layout = ff_vs_layout_from_elements(&elements);
    assert_eq!(layout.tex_coord_count, 8);
}

#[test]
fn ff_vs_layout_in_spec_usage_index_7_yields_8() {
    let elements = [
        pos3(),
        D3DVERTEXELEMENT9 {
            stream: 0,
            offset: 12,
            type_: D3DDECLTYPE_FLOAT2,
            method: 0,
            usage: D3DDECLUSAGE_TEXCOORD,
            usage_index: 7,
        },
    ];
    let layout = ff_vs_layout_from_elements(&elements);
    assert_eq!(layout.tex_coord_count, 8);
}

#[test]
fn ff_vs_layout_single_tex0_yields_1() {
    let layout = ff_vs_layout_from_elements(&[pos3(), tex0(12)]);
    assert_eq!(layout.tex_coord_count, 1);
}

#[test]
fn d3d_depth_bias_zero_passes_through() {
    // D3DRS_DEPTHBIAS default is 0.0 (u32 0). Most draws don't touch
    // it — the scaled output must stay exactly zero so games that
    // never write the state see no rasterizer offset.
    assert_eq!(d3d_depth_bias_to_metal(0), 0.0_f32.to_bits());
}

#[test]
fn d3d_depth_bias_scales_by_two_pow_23() {
    // D3D9 spec: 1 ULP at the depth resolution. Metal's setDepthBias
    // takes the value in absolute float units of the depth format.
    // mtld3d's depth always resolves to Depth32Float (mantissa = 23
    // bits), so the scale is 2^23.
    let raw = 1.0f32.to_bits();
    let scaled = f32::from_bits(d3d_depth_bias_to_metal(raw));
    // 2^23 = 8_388_608.0 is exactly representable in f32; bit-equality holds.
    assert_eq!(scaled.to_bits(), 8_388_608.0_f32.to_bits());
}

#[test]
fn d3d_depth_bias_negative_pushes_toward_camera() {
    // Negative bias is the canonical decal-pull-forward direction.
    // Sign must be preserved through the scale.
    // raw = -1.0 / 2^23 → scale × raw = -1.0
    let raw = (-(1.0_f32 / 8_388_608.0_f32)).to_bits();
    let scaled = f32::from_bits(d3d_depth_bias_to_metal(raw));
    assert!((scaled - -1.0).abs() < 1e-6);
}

#[test]
fn looks_like_decal_fires_on_alpha_blended_no_bias() {
    // Canonical decal pattern: depth-test on, depth-write off,
    // alpha-blend on, game's DEPTHBIAS + SLOPESCALEDEPTHBIAS both
    // zero. Predicate fires → caller substitutes
    // IMPLICIT_DECAL_BIAS_RAW for the zero game bias.
    let inputs = DecalHeuristicInputs {
        depth_enable: 1,
        depth_write: 0,
        blend_enable: 1,
        raw_depth_bias: 0,
        raw_slope_scale: 0,
    };
    assert!(looks_like_decal(inputs));
}

#[test]
fn looks_like_decal_skips_alpha_blended_depth_writer() {
    // An alpha-blended draw that ALSO writes depth is not a decal:
    // the depth-write prong excludes it, so it keeps the game's own
    // bias. Widening the predicate to such draws would need a
    // different signal (e.g. D3DRS_ALPHATESTENABLE).
    let inputs = DecalHeuristicInputs {
        depth_enable: 1,
        depth_write: 1,
        blend_enable: 1,
        raw_depth_bias: 0,
        raw_slope_scale: 0,
    };
    assert!(!looks_like_decal(inputs));
}

#[test]
fn looks_like_decal_skips_game_supplied_bias() {
    // Alpha-blended decal-shaped draw whose game-side
    // D3DRS_DEPTHBIAS is already non-zero. The predicate declines,
    // so the game's own bias is left alone rather than clobbered.
    let inputs = DecalHeuristicInputs {
        depth_enable: 1,
        depth_write: 0,
        blend_enable: 1,
        raw_depth_bias: 0x3a83_126f, // ~ +1e-3 as f32 bits
        raw_slope_scale: 0,
    };
    assert!(!looks_like_decal(inputs));
}

#[test]
fn looks_like_decal_skips_opaque_draw() {
    // No alpha blend → not a decal pattern. Solid geometry that
    // happens to disable depth-write (e.g. a deferred normals
    // prepass) shouldn't be pulled toward camera.
    let inputs = DecalHeuristicInputs {
        depth_enable: 1,
        depth_write: 0,
        blend_enable: 0,
        raw_depth_bias: 0,
        raw_slope_scale: 0,
    };
    assert!(!looks_like_decal(inputs));
}

#[test]
fn implicit_decal_bias_scales_to_safe_metal_band() {
    // Magnitude band rationale:
    // (a) > ~500 Metal units swamps the depth-buffer's 2^-23
    //     step plus the structural eye-space delta observed
    //     between two SM3 pipelines on Apple Silicon at grazing
    //     angles;
    // (b) < ~5000 keeps flat decals from punching through
    //     adjacent geometry on steep terrain.
    // Tune the constant if a future workload forces it out of
    // this band; the test catches accidental order-of-magnitude
    // changes.
    let metal = f32::from_bits(d3d_depth_bias_to_metal(IMPLICIT_DECAL_BIAS_RAW));
    assert!(
        metal < 0.0,
        "implicit bias must pull toward camera, got {metal}"
    );
    let mag = -metal;
    assert!(mag > 500.0, "magnitude {mag} too small to swamp ULP noise");
    assert!(
        mag < 5000.0,
        "magnitude {mag} risks punching through terrain"
    );
}

#[test]
fn d3d_to_metal_blend_op_table() {
    assert_eq!(d3d_to_metal_blend_op(1), BlendOperation::Add);
    assert_eq!(d3d_to_metal_blend_op(2), BlendOperation::Subtract);
    assert_eq!(d3d_to_metal_blend_op(3), BlendOperation::ReverseSubtract);
    assert_eq!(d3d_to_metal_blend_op(4), BlendOperation::Min);
    assert_eq!(d3d_to_metal_blend_op(5), BlendOperation::Max);
    // Unknown → Add (with warn).
    assert_eq!(d3d_to_metal_blend_op(0), BlendOperation::Add);
    assert_eq!(d3d_to_metal_blend_op(99), BlendOperation::Add);
}

#[test]
fn color_fill_float_formats_carry_normalized_channels() {
    // 0xAARRGGBB = 0x8040_2010 → R=0x40, G=0x20, B=0x10, A=0x80, each
    // normalized by 255 and stored in R, G, B, A order.
    let expect = |byte: u8| f32::from(byte) / 255.0;

    let bytes = d3dcolor_fill_pixel_bytes(0x8040_2010, D3DFMT_A32B32G32R32F).unwrap();
    assert_eq!(bytes.len(), 16);
    for (i, byte) in [0x40u8, 0x20, 0x10, 0x80].into_iter().enumerate() {
        let lane = f32::from_le_bytes([
            bytes[i * 4],
            bytes[i * 4 + 1],
            bytes[i * 4 + 2],
            bytes[i * 4 + 3],
        ]);
        assert_eq!(lane.to_bits(), expect(byte).to_bits(), "lane {i}");
    }

    let bytes = d3dcolor_fill_pixel_bytes(0x8040_2010, D3DFMT_G32R32F).unwrap();
    assert_eq!(bytes.len(), 8);
    assert_eq!(
        f32::from_le_bytes([bytes[4], bytes[5], bytes[6], bytes[7]]).to_bits(),
        expect(0x20).to_bits()
    );

    // The half-float twins carry the same values through binary16.
    let bytes = d3dcolor_fill_pixel_bytes(0x8040_2010, D3DFMT_A16B16G16R16F).unwrap();
    assert_eq!(bytes.len(), 8);
    for (i, byte) in [0x40u8, 0x20, 0x10, 0x80].into_iter().enumerate() {
        let lane = u16::from_le_bytes([bytes[i * 2], bytes[i * 2 + 1]]);
        assert_eq!(lane, f32_to_f16_bits(expect(byte).to_bits()), "lane {i}");
    }
    assert_eq!(
        d3dcolor_fill_pixel_bytes(0x8040_2010, D3DFMT_G16R16F)
            .unwrap()
            .len(),
        4
    );
    assert_eq!(
        d3dcolor_fill_pixel_bytes(0x8040_2010, D3DFMT_R16F).unwrap(),
        f32_to_f16_bits(expect(0x40).to_bits()).to_le_bytes().to_vec()
    );
}

#[test]
fn color_fill_unorm16_formats_replicate_each_channel() {
    // 0xab widens to 0xabab: exact at both endpoints, half an LSB elsewhere.
    assert_eq!(
        d3dcolor_fill_pixel_bytes(0x8040_2010, D3DFMT_A16B16G16R16).unwrap(),
        vec![0x40, 0x40, 0x20, 0x20, 0x10, 0x10, 0x80, 0x80]
    );
    assert_eq!(
        d3dcolor_fill_pixel_bytes(0xff00_ff00, D3DFMT_G16R16).unwrap(),
        vec![0x00, 0x00, 0xff, 0xff]
    );
}

#[test]
fn f32_to_f16_bits_matches_the_ieee_encoding() {
    // Exactly representable values, both signs.
    assert_eq!(f32_to_f16_bits(0.0f32.to_bits()), 0x0000);
    assert_eq!(f32_to_f16_bits((-0.0f32).to_bits()), 0x8000);
    assert_eq!(f32_to_f16_bits(1.0f32.to_bits()), 0x3c00);
    assert_eq!(f32_to_f16_bits((-2.0f32).to_bits()), 0xc000);
    assert_eq!(f32_to_f16_bits(0.5f32.to_bits()), 0x3800);
    // Largest finite binary16, and the first magnitude that overflows it.
    assert_eq!(f32_to_f16_bits(65504.0f32.to_bits()), 0x7bff);
    assert_eq!(f32_to_f16_bits(65536.0f32.to_bits()), 0x7c00);
    assert_eq!(f32_to_f16_bits(f32::INFINITY.to_bits()), 0x7c00);
    assert_eq!(f32_to_f16_bits(f32::NEG_INFINITY.to_bits()), 0xfc00);
    // NaN stays a NaN (exponent all ones, non-zero payload).
    let nan = f32_to_f16_bits(f32::NAN.to_bits());
    assert_eq!(nan & 0x7c00, 0x7c00);
    assert_ne!(nan & 0x03ff, 0);
    // Subnormals: the smallest one, and a magnitude below it flushing to
    // a signed zero.
    assert_eq!(f32_to_f16_bits(0x3380_0000), 0x0001);
    assert_eq!(f32_to_f16_bits((-1.0e-9f32).to_bits()), 0x8000);
    // Ties round to even. binary16's ulp at 1.0 is 2^-10, so 1.0 + 2^-11
    // sits exactly between 1.0 (even) and its successor, and lands on 1.0;
    // 1.0 + 3 * 2^-11 sits between the successor (odd) and the one after
    // (even), and lands on the one after.
    assert_eq!(f32_to_f16_bits((1.0f32 + 0.000_488_281_25).to_bits()), 0x3c00);
    assert_eq!(
        f32_to_f16_bits(3.0f32.mul_add(0.000_488_281_25, 1.0).to_bits()),
        0x3c02
    );
}

#[test]
fn border_addressing_and_colour_presets() {
    assert_eq!(
        d3d_to_metal_address_mode(D3DTADDRESS_BORDER),
        AddressMode::ClampToBorderColor
    );
    assert_eq!(d3d_border_color_to_metal(0), BorderColor::TransparentBlack);
    assert_eq!(
        d3d_border_color_to_metal(0xFF00_0000),
        BorderColor::OpaqueBlack
    );
    assert_eq!(
        d3d_border_color_to_metal(0xFFFF_FFFF),
        BorderColor::OpaqueWhite
    );
    // Anything else has no preset and falls back to opaque black.
    assert_eq!(
        d3d_border_color_to_metal(0xFFFF_FF00),
        BorderColor::OpaqueBlack
    );
    assert_eq!(
        d3d_border_color_to_metal(0x00FF_FFFF),
        BorderColor::OpaqueBlack
    );
}

#[test]
fn splat_pattern_repeats_across_the_slice() {
    let mut dst = [0u8; 12];
    splat_pixel_pattern(&mut dst, &[1, 2, 3, 4]);
    assert_eq!(dst, [1, 2, 3, 4, 1, 2, 3, 4, 1, 2, 3, 4]);
}

#[test]
fn splat_pattern_fills_a_partial_trailing_pixel() {
    let mut dst = [0u8; 6];
    splat_pixel_pattern(&mut dst, &[9, 8, 7, 6]);
    assert_eq!(dst, [9, 8, 7, 6, 9, 8]);
}

#[test]
fn splat_pattern_truncates_a_pattern_wider_than_the_slice() {
    let mut dst = [0u8; 2];
    splat_pixel_pattern(&mut dst, &[4, 5, 6, 7]);
    assert_eq!(dst, [4, 5]);
}

#[test]
fn splat_pattern_leaves_the_slice_alone_for_an_empty_pattern() {
    let mut dst = [7u8; 3];
    splat_pixel_pattern(&mut dst, &[]);
    assert_eq!(dst, [7, 7, 7]);
}

#[test]
fn declarations_are_hashed_over_their_bytes() {
    let mut bytes = Vec::new();
    for e in [pos3(), tex0(0x0c0d)] {
        bytes.extend_from_slice(&e.stream.to_le_bytes());
        bytes.extend_from_slice(&e.offset.to_le_bytes());
        bytes.extend_from_slice(&[e.type_, e.method, e.usage, e.usage_index]);
    }
    assert_eq!(hash_elements(&[pos3(), tex0(0x0c0d)]), xxhash_rust::xxh3::xxh3_64(&bytes));
    assert_eq!(hash_elements(&[]), 0x2d06_8005_38d3_94c2);
}

#[test]
fn depth_biases_scale_exactly_or_overflow() {
    for v in [1.5f32, -3.25e-7, 1.0e-45, 7.0e-40, 1.0e31, -4.0e37, 0.1] {
        let want = v * 8_388_608.0;
        assert_eq!(f32::from_bits(d3d_depth_bias_to_metal(v.to_bits())).to_bits(), want.to_bits());
    }
    assert_eq!(d3d_depth_bias_to_metal((-0.0f32).to_bits()), (-0.0f32).to_bits());
    assert!(f32::from_bits(d3d_depth_bias_to_metal(f32::NAN.to_bits())).is_nan());
}

#[test]
fn comparisons_and_stencil_operations_have_their_counterparts() {
    assert_eq!(d3d_to_metal_cmp(1), CompareFunc::Never);
    assert_eq!(d3d_to_metal_cmp(4), CompareFunc::LessEqual);
    assert_eq!(d3d_to_metal_cmp(8), CompareFunc::Always);
    assert_eq!(d3d_to_metal_stencil_op(1), StencilOp::Keep);
    assert_eq!(d3d_to_metal_stencil_op(4), StencilOp::IncrementClamp);
    assert_eq!(d3d_to_metal_stencil_op(8), StencilOp::DecrementWrap);
    assert_eq!(d3d_to_metal_blend(2), BlendFactor::One);
    assert_eq!(d3d_to_metal_blend(5), BlendFactor::SourceAlpha);
}

#[test]
fn a_target_without_alpha_reads_it_as_one() {
    assert_eq!(d3d_to_metal_blend_rt(7, true), BlendFactor::DestinationAlpha);
    assert_eq!(d3d_to_metal_blend_rt(7, false), BlendFactor::One);
    assert_eq!(d3d_to_metal_blend_rt(8, false), BlendFactor::Zero);
    assert_eq!(d3d_to_metal_blend_rt(5, false), BlendFactor::SourceAlpha);
}

#[test]
fn filters_culling_and_primitives_have_their_counterparts() {
    assert_eq!(d3d_to_metal_min_mag_filter(1), MinMagFilter::Nearest);
    assert_eq!(d3d_to_metal_min_mag_filter(2), MinMagFilter::Linear);
    assert_eq!(d3d_to_metal_mip_filter(0), MipFilter::NotMipmapped);
    assert_eq!(d3d_to_metal_mip_filter(2), MipFilter::Linear);
    assert_eq!(d3d_to_metal_cull(1), CullMode::Disabled);
    assert_eq!(d3d_to_metal_primitive(4), Some(PrimitiveType::Triangle));
    assert_eq!(d3d_to_metal_primitive(6), None);
    assert_eq!(vertex_count(4, 5), 15);
    assert_eq!(vertex_count(5, 5), 7);
    assert_eq!(vertex_count(2, 5), 10);
    assert_eq!(vertex_count(3, 5), 6);
    assert_eq!(vertex_count(1, 5), 5);
}

#[test]
fn write_masks_pick_their_channels() {
    let m = d3d_to_metal_write_mask(0b1001);
    assert!(m.red && m.alpha && !m.green && !m.blue);
}

#[test]
fn grey_has_its_own_luminance() {
    for v in 0..=255u32 {
        let grey = v << 16 | v << 8 | v;
        assert_eq!(d3dcolor_fill_pixel_bytes(grey, D3DFMT_L8).unwrap(), vec![v as u8]);
    }
}

#[test]
fn unorms_are_the_nearest_floats() {
    for v in 0..=255u8 {
        let want = f32::from(v) / 255.0;
        assert_eq!(d3dcolor_to_rgba_f32(u32::from(v) << 16)[0], want.to_bits());
    }
}

#[test]
fn half_floats_turn_their_sign() {
    for bits in [0u32, 1, 0x3380_0000, 0x3f80_0001, 0x477f_f000, 0x7f80_0000, 0x7fc0_0000] {
        assert_eq!(f32_to_f16_bits(bits | 0x8000_0000), f32_to_f16_bits(bits) | 0x8000);
    }
}

#[test]
fn sequential_fans_follow_the_pattern() {
    let fan = FanRewrite::sequential(0, 50).expect("fits");
    let mut pattern = vec![0u8; fan_pattern_bytes(50)];
    fill_fan_pattern_u16(&mut pattern, 50);
    assert_eq!(rewritten(&fan), pattern);
}

#[test]
fn fans_refuse_what_they_cannot_index() {
    let none = FanRewrite::sequential(7, 0).expect("fits");
    assert_eq!((none.index_count(), none.byte_len()), (0, 0));
    assert!(FanRewrite::sequential(0, u32::MAX - 1).is_none());
    assert!(FanRewrite::indexed(&[0; 6], 2, i32::MIN, 1).is_none());
    assert!(FanRewrite::indexed(&[0xff; 12], 4, 1, 1).is_none());
}

#[test]
fn known_codes_are_those_with_a_counterpart() {
    let known = |kind| (0..20).filter(|&c| knows(kind, c)).collect::<Vec<u32>>();
    assert_eq!(known(CodeKind::Comparison), (1..=8).collect::<Vec<u32>>());
    assert_eq!(known(CodeKind::StencilOperation), (1..=8).collect::<Vec<u32>>());
    assert_eq!(known(CodeKind::Blend), [1, 2, 3, 4, 5, 6, 7, 8, 9, 10, 11, 14, 15]);
    assert_eq!(known(CodeKind::BlendOperation), [1, 2, 3, 4, 5]);
    assert_eq!(known(CodeKind::Cull), [1, 2, 3]);
    assert_eq!(known(CodeKind::MinMagFilter), [1, 2, 3]);
    assert_eq!(known(CodeKind::MipFilter), [0, 1, 2, 3]);
    assert_eq!(known(CodeKind::AddressMode), [1, 2, 3, 4, 5]);
    assert_eq!(known(CodeKind::Primitive), [1, 2, 3, 4, 5]);
    assert_eq!(known(CodeKind::CountedPrimitive), [1, 2, 3, 4, 5, 6]);
    assert_eq!(known(CodeKind::ElementType), [0, 1, 2, 3, 4, 5, 6, 7, 8, 9, 10, 11, 12, 15, 16]);
    assert_eq!(known(CodeKind::Fog), [0, 1, 2, 3]);
    assert_eq!(known(CodeKind::MaterialSource), [0, 1, 2]);
    assert!(knows(CodeKind::VertexBlend, 256) && !knows(CodeKind::VertexBlend, 255));
    assert!(knows(CodeKind::BorderColor, 0xff00_0000) && !knows(CodeKind::BorderColor, 0xff00_0001));
}
