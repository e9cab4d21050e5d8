//! The state of the fixed-function pipeline, and what is sent of it.

use mtld3d_core::convert::{fvf_to_elements, ff_vs_layout_from_elements, FfVsLayout};
use mtld3d_core::d3d9::{
    StateBlockType, D3DFVF_DIFFUSE, D3DFVF_NORMAL, D3DFVF_XYZ, D3DFVF_XYZRHW, D3DLIGHT9,
    D3DMATERIAL9, D3DMATRIX, D3DRS_ALPHAFUNC, D3DRS_ALPHAREF, D3DRS_ALPHATESTENABLE, D3DRS_AMBIENT,
    D3DRS_FOGCOLOR, D3DRS_FOGEND, D3DRS_FOGENABLE, D3DRS_FOGSTART, D3DRS_FOGTABLEMODE,
    D3DRS_FOGVERTEXMODE, D3DRS_LIGHTING, D3DRS_TEXTUREFACTOR, D3DTS_PROJECTION, D3DTS_TEXTURE0,
    D3DTS_VIEW, D3DTS_WORLD, RENDER_STATE_COUNT,
};
use mtld3d_core::dxso::{emit_vs_ff, SharedText, VariantKey};
use mtld3d_core::ff_state::{
    build_fog_color_bytes, EyeLight, FfState, FfStateSnapshot, FfVsDirty,
};
use mtld3d_core::scratch::ScratchArena;

const COLOROP: usize = 1;
const ALPHAOP: usize = 4;
const BUMPENVMAT00: usize = 7;
const TEXCOORDINDEX: usize = 11;
const TEXTURETRANSFORMFLAGS: usize = 24;

fn bits(v: f32) -> u32 {
    v.to_bits()
}

fn matrix(start: f32) -> D3DMATRIX {
    let mut m = [0u32; 16];
    for (i, e) in m.iter_mut().enumerate() {
        *e = bits(start + i as f32);
    }
    D3DMATRIX { m }
}

fn states() -> [u32; RENDER_STATE_COUNT] {
    [0; RENDER_STATE_COUNT]
}

fn layout(fvf: u32) -> FfVsLayout {
    ff_vs_layout_from_elements(&fvf_to_elements(fvf).0)
}

fn light(type_: u32, range: f32) -> D3DLIGHT9 {
    D3DLIGHT9 { type_, range: bits(range), ..D3DLIGHT9::default() }
}

#[test]
fn transforms_are_kept_apart() {
    let mut s = FfState::new();
    assert!(s.set_transform(D3DTS_VIEW, &matrix(1.0)));
    assert!(s.set_transform(D3DTS_PROJECTION, &matrix(2.0)));
    assert!(s.set_transform(D3DTS_WORLD, &matrix(3.0)));
    assert!(s.set_transform(D3DTS_WORLD + 5, &matrix(4.0)));
    assert!(s.set_transform(D3DTS_TEXTURE0 + 2, &matrix(5.0)));
    assert_eq!(s.transform(D3DTS_VIEW), Some(&matrix(1.0)));
    assert_eq!(s.transform(D3DTS_PROJECTION), Some(&matrix(2.0)));
    assert_eq!(s.transform(D3DTS_WORLD), Some(&matrix(3.0)));
    assert_eq!(s.transform(D3DTS_WORLD + 5), Some(&matrix(4.0)));
    assert_eq!(s.transform(D3DTS_TEXTURE0 + 2), Some(&matrix(5.0)));
    assert_eq!(s.transform(D3DTS_TEXTURE0 + 1), Some(&D3DMATRIX::identity()));
    assert_eq!(s.world_palette_used(), 6);
    assert!(!s.set_transform(1, &matrix(6.0)));
    assert_eq!(s.transform(1), None);
}

#[test]
fn setting_a_matrix_marks_its_section() {
    let mut s = FfState::new();
    s.take_ff_vs_dirty();
    assert_eq!(s.take_ff_vs_dirty(), FfVsDirty::empty());
    s.set_transform(D3DTS_PROJECTION, &matrix(2.0));
    let dirty = s.take_ff_vs_dirty();
    assert!(dirty.proj);
    assert!(!dirty.material);
    s.set_material(&D3DMATERIAL9 { power: bits(3.0), ..D3DMATERIAL9::default() });
    s.mark_ff_vs_dirty(FfVsDirty { fog: true, ..FfVsDirty::empty() });
    let dirty = s.take_ff_vs_dirty();
    assert!(dirty.material && dirty.fog && !dirty.proj);
}

#[test]
fn transposing_swaps_rows_and_columns() {
    let t = FfState::transpose(&matrix(0.0));
    assert_eq!(t.m[1], bits(4.0));
    assert_eq!(t.m[4], bits(1.0));
    assert_eq!(FfState::transpose(&t), matrix(0.0));
}

#[test]
fn an_orthographic_projection_is_known_by_its_last_column() {
    let mut s = FfState::new();
    assert!(s.projection_is_ortho());
    let mut m = D3DMATRIX::identity();
    m.m[11] = bits(1.0);
    s.set_transform(D3DTS_PROJECTION, &m);
    assert!(!s.projection_is_ortho());
    m.m[11] = bits(-0.0);
    s.set_transform(D3DTS_PROJECTION, &m);
    assert!(s.projection_is_ortho());
}

#[test]
fn lights_read_back() {
    let mut s = FfState::new();
    assert!(!s.is_light_defined_at(3));
    assert_eq!(s.get_light_at(3), None);
    s.set_light_at(3, &light(1, 7.0));
    s.set_light_at(1000, &light(2, 8.0));
    assert_eq!(s.get_light_at(3), Some(light(1, 7.0)));
    assert_eq!(s.get_light_at(1000), Some(light(2, 8.0)));
    assert!(!s.is_light_enabled_at(1000));
    s.set_light_enabled_at(1000, true);
    assert!(s.is_light_enabled_at(1000));
    // Enabling a light that was never set sets one.
    s.set_light_enabled_at(20, true);
    assert!(s.is_light_defined_at(20));
}

#[test]
fn active_lights_fill_the_lowest_slots() {
    let mut s = FfState::new();
    s.set_light_at(7, &light(3, 1.0));
    s.set_light_enabled_at(7, true);
    s.set_light_at(500, &light(2, 2.0));
    s.set_light_enabled_at(500, true);
    s.set_light_at(100, &light(1, 3.0));
    s.set_light_enabled_at(100, true);
    let active = s.active_lights();
    assert_eq!(active, vec![light(3, 1.0), light(1, 3.0), light(2, 2.0)]);
    let mut rs = states();
    rs[D3DRS_LIGHTING] = 1;
    let k = s.build_vs_key(&rs, layout(D3DFVF_XYZ | D3DFVF_NORMAL), 0, 0);
    assert_eq!(k.light_active_mask, 0b111);
    assert_eq!(k.light_directional_mask, 0b001);
    assert_eq!(k.light_spot_mask, 0b100);
    // At most eight shine.
    for i in 0..30 {
        s.set_light_enabled_at(i, true);
    }
    assert_eq!(s.active_lights().len(), 8);
}

#[test]
fn keys_hold_what_the_vertex_has() {
    let mut s = FfState::new();
    let mut rs = states();
    rs[D3DRS_LIGHTING] = 1;
    let k = s.build_vs_key(&rs, layout(D3DFVF_XYZ | D3DFVF_NORMAL | D3DFVF_DIFFUSE | (2 << 8)), 0, 3);
    assert!(k.has_normal() && k.has_color0() && !k.has_color1() && k.lighting_enabled());
    assert_eq!(k.input_tex_coord_count, 2);
    assert_eq!(k.clip_plane_count, 3);
    // Vertices that are transformed already are not lit and not clipped by planes.
    let k = s.build_vs_key(&rs, layout(D3DFVF_XYZRHW), 0, 3);
    assert!(k.has_rhw() && !k.lighting_enabled());
    assert_eq!(k.clip_plane_count, 0);
    assert_eq!(s.ff_vs_row_count(&k), 1);
    // A texture bound to a later stage gets a coordinate too.
    s.set_texture_stage_state(1, COLOROP, 4);
    let k = s.build_vs_key(&rs, layout(D3DFVF_XYZ | (1 << 8)), 0b10, 0);
    assert_eq!(k.tex_coord_count, 2);
    s.set_texture_stage_state(1, TEXCOORDINDEX, 0x2_0001);
    s.set_texture_stage_state(1, TEXTURETRANSFORMFLAGS, 0x103);
    let k = s.build_vs_key(&rs, layout(D3DFVF_XYZ | (1 << 8)), 0b10, 0);
    assert_eq!((k.tci_modes[1], k.tci_coord_indices[1], k.tt_flags[1]), (2, 1, 0x13));
    assert_eq!(s.tt_projected_mask(), 0b10);
    // Every key has a shader.
    let shared = SharedText {
        vs_draw: String::new(),
        srgb_write_helper: String::new(),
        point_sprite_prologue: String::new(),
        fog_blend: String::new(),
    };
    assert!(emit_vs_ff(&k, &shared).contains("float4 raw1 = float4(posEye, 0.0);"));
}

#[test]
fn fog_is_computed_once() {
    let mut s = FfState::new();
    let mut rs = states();
    rs[D3DRS_FOGENABLE] = 1;
    rs[D3DRS_FOGVERTEXMODE] = 3;
    let v = s.variant_key(&rs, false);
    assert_eq!((v.fog_mode, v.fog_table_mode), (3, 0));
    rs[D3DRS_FOGTABLEMODE] = 1;
    let v = s.variant_key(&rs, false);
    assert_eq!((v.fog_mode, v.fog_table_mode), (0, 1));
    assert!(!v.flags.fog_source_w);
    let mut m = D3DMATRIX::identity();
    m.m[11] = bits(1.0);
    s.set_transform(D3DTS_PROJECTION, &m);
    assert!(s.variant_key(&rs, false).flags.fog_source_w);
    rs[D3DRS_FOGENABLE] = 0;
    let v = s.variant_key(&rs, false);
    assert_eq!((v.fog_mode, v.fog_table_mode), (0, 0));
}

#[test]
fn alpha_tests_go_into_the_variant() {
    let s = FfState::new();
    let mut rs = states();
    rs[D3DRS_ALPHAFUNC] = 5;
    rs[D3DRS_ALPHAREF] = 0xffff_ff80;
    assert_eq!(s.variant_key(&rs, false).alpha_func, 0);
    rs[D3DRS_ALPHATESTENABLE] = 1;
    assert_eq!(s.variant_key(&rs, false).alpha_func, 5);
    assert_eq!(s.alpha_ref(&rs), bits(128.0 / 255.0));
}

#[test]
fn stages_read_back_and_make_a_pixel_key() {
    let mut s = FfState::new();
    assert_eq!(s.texture_stage_state(0, COLOROP), 4);
    assert_eq!(s.texture_stage_state(1, COLOROP), 1);
    s.set_texture_stage_state(0, COLOROP, 2);
    s.set_texture_stage_state(0, ALPHAOP, 3);
    let k = s.build_ps_key(&states(), 0b1);
    assert_eq!((k.stages[0].color_op, k.stages[0].alpha_op), (2, 3));
    assert!(k.stages[0].has_texture);
    assert!(!k.stages[1].has_texture);
}

#[test]
fn constants_are_laid_out_in_rows() {
    let mut s = FfState::new();
    s.set_transform(D3DTS_PROJECTION, &matrix(0.0));
    let section = s.build_proj_section();
    assert_eq!(section.start_row, 4);
    assert_eq!(section.rows.len(), 4);
    // Rows of the section are columns of the matrix.
    assert_eq!(section.rows[0], [bits(0.0), bits(4.0), bits(8.0), bits(12.0)]);
    let section = FfState::build_wv_section(&matrix(0.0));
    assert_eq!(section.start_row, 0);
    assert_eq!(section.rows[1], [bits(1.0), bits(5.0), bits(9.0), bits(13.0)]);
    let mut rs = states();
    rs[D3DRS_AMBIENT] = 0xff00_ff00;
    let section = FfState::build_ambient_section(&rs);
    assert_eq!(section.start_row, 9);
    assert_eq!(section.rows[0], [0, bits(1.0), 0, bits(1.0)]);
    rs[D3DRS_FOGSTART] = bits(1.5);
    rs[D3DRS_FOGEND] = bits(2.5);
    let section = FfState::build_fog_section(&rs, 3);
    assert_eq!(section.start_row, 8);
    assert_eq!(section.rows[0][0], bits(1.5));
    assert_eq!(section.rows[0][1], bits(2.5));
    let section = FfState::build_xyzrhw_row((10, 20, 640, 480));
    assert_eq!((section.start_row, section.rows), (0, vec![[640, 480, 10, 20]]));
}

#[test]
fn sections_are_stored_as_little_endian_bytes() {
    let mut scratch = ScratchArena::new();
    let section = FfState::build_xyzrhw_row((1, 2, 0x0a0b_0c0d, 4));
    let region = section.store(&mut scratch);
    assert_eq!(
        scratch.bytes(region),
        &[0x0d, 0x0c, 0x0b, 0x0a, 4, 0, 0, 0, 1, 0, 0, 0, 2, 0, 0, 0][..]
    );
    assert_eq!(scratch.bytes_used(), 16);
}

#[test]
fn lights_are_packed_by_slot() {
    let mut s = FfState::new();
    s.set_light_at(2, &light(3, 1.0));
    s.set_light_enabled_at(2, true);
    let mut rs = states();
    let dark = s.build_vs_key(&rs, layout(D3DFVF_XYZ | D3DFVF_NORMAL), 0, 0);
    assert!(s.build_lights_section(&dark, &[]).is_none());
    rs[D3DRS_LIGHTING] = 1;
    let k = s.build_vs_key(&rs, layout(D3DFVF_XYZ | D3DFVF_NORMAL), 0, 0);
    let eye = EyeLight {
        position: [1, 2, 3],
        direction: [4, 5, 6],
        falloff: 7,
        spot_offset: 0,
        spot_scale: 0,
    };
    let section = s.build_lights_section(&k, &[eye]).unwrap();
    assert_eq!(section.start_row, 15);
    assert_eq!(section.rows.len(), 6);
    assert_eq!(&section.rows[0][..3], &[1, 2, 3]);
    assert_eq!(&section.rows[1][..3], &[4, 5, 6]);
    assert_eq!(s.ff_vs_row_count(&k), 21);
}

#[test]
fn pixel_constants_are_little_endian() {
    let s = FfState::new();
    let mut rs = states();
    rs[D3DRS_TEXTUREFACTOR] = 0x00ff_0000;
    let mut want = [0u8; 16];
    want[..4].copy_from_slice(&1.0f32.to_le_bytes());
    assert_eq!(s.build_ps_constants(&rs), want);
    rs[D3DRS_FOGCOLOR] = 0xff00_0000;
    rs[D3DRS_FOGEND] = bits(9.0);
    let fogged = VariantKey { fog_mode: 3, ..VariantKey::plain() };
    let (bytes, len) = build_fog_color_bytes(&rs, &fogged);
    assert_eq!(len, 32);
    assert_eq!(&bytes[12..16], &1.0f32.to_le_bytes()[..]);
    assert_eq!(&bytes[20..24], &9.0f32.to_le_bytes()[..]);
    assert_eq!(build_fog_color_bytes(&rs, &VariantKey::plain()), ([0u8; 32], 0));
}

#[test]
fn bump_matrices_are_packed_by_stage() {
    let mut s = FfState::new();
    s.set_texture_stage_state(1, BUMPENVMAT00, bits(0.25));
    let bytes = s.build_bump_env_bytes();
    assert_eq!(bytes.len(), 256);
    assert_eq!(&bytes[32..36], &0.25f32.to_le_bytes()[..]);
    assert_eq!(&bytes[..4], &[0u8; 4][..]);
}

#[test]
fn going_back_restores_the_state() {
    let mut s = FfState::new();
    s.set_transform(D3DTS_VIEW, &matrix(1.0));
    s.set_light_at(4, &light(1, 4.0));
    s.set_texture_stage_state(3, COLOROP, 7);
    let snapshot = FfStateSnapshot::from(&s);
    s.set_transform(D3DTS_VIEW, &matrix(9.0));
    s.set_light_at(4, &light(2, 5.0));
    s.set_texture_stage_state(3, COLOROP, 8);
    snapshot.restore_into(&mut s);
    assert_eq!(s.transform(D3DTS_VIEW), Some(&matrix(1.0)));
    assert_eq!(s.get_light_at(4), Some(light(1, 4.0)));
    assert_eq!(s.texture_stage_state(3, COLOROP), 7);
    // A pixel block leaves transforms alone.
    s.set_transform(D3DTS_VIEW, &matrix(9.0));
    s.set_texture_stage_state(3, COLOROP, 8);
    snapshot.restore_filtered(&mut s, StateBlockType::Pixel);
    assert_eq!(s.transform(D3DTS_VIEW), Some(&matrix(9.0)));
    assert_eq!(s.texture_stage_state(3, COLOROP), 7);
}

#[test]
fn palettes_are_sent_only_when_vertices_are_blended() {
    let mut s = FfState::new();
    s.set_transform(D3DTS_WORLD + 1, &matrix(1.0));
    let rs = states();
    let k = s.build_vs_key(&rs, layout(D3DFVF_XYZ), 0, 0);
    assert!(s.build_palette_section(&k, &[]).is_none());
    let mut blended = k;
    blended.vertex_blend_count = 2;
    let section = s.build_palette_section(&blended, &[matrix(0.0), matrix(16.0)]).unwrap();
    assert_eq!(section.start_row, 95);
    assert_eq!(section.rows.len(), 8);
    assert_eq!(section.rows[4], [bits(16.0), bits(20.0), bits(24.0), bits(28.0)]);
}

#[test]
fn texture_transforms_are_sent_up_to_the_last_active_one() {
    let mut s = FfState::new();
    assert!(s.build_tt_section().is_none());
    s.set_transform(D3DTS_TEXTURE0, &matrix(1.0));
    s.set_transform(D3DTS_TEXTURE0 + 1, &matrix(2.0));
    s.set_texture_stage_state(1, TEXTURETRANSFORMFLAGS, 2);
    assert_eq!(s.tt_active_mask(), 0b10);
    let section = s.build_tt_section().unwrap();
    assert_eq!(section.start_row, 63);
    assert_eq!(section.rows.len(), 8);
    assert_eq!(section.rows[0], [bits(1.0), 0, 0, 0]);
    assert_eq!(section.rows[4], [bits(2.0), bits(6.0), bits(10.0), bits(14.0)]);
}

#[test]
fn unusual_stage_states_are_worth_one_warning() {
    let mut s = FfState::new();
    let stage = 0;
    let ty = 32;
    assert!(!s.warns_of_texture_stage_state(stage, ty, 0));
    assert!(s.warns_of_texture_stage_state(stage, ty, 5));
    assert!(s.set_texture_stage_state(stage, ty, 5));
    assert!(s.tss_warn_fired(stage, ty));
    assert!(!s.warns_of_texture_stage_state(stage, ty, 6));
    assert!(!s.set_texture_stage_state(stage, ty, 5));
    assert_eq!(s.texture_stage_state(stage, ty), 5);
}

#[test]
fn lights_with_any_index_mark_their_section() {
    let mut s = FfState::new();
    for index in [0, 7, 8, 4_000_000_000] {
        s.take_ff_vs_dirty();
        s.set_light_at(index, &light(1, 1.0));
        assert_eq!(s.take_ff_vs_dirty(), FfVsDirty { lights: true, ..FfVsDirty::empty() });
        s.set_light_enabled_at(index, true);
        assert_eq!(s.take_ff_vs_dirty(), FfVsDirty { lights: true, ..FfVsDirty::empty() });
    }
}

#[test]
fn going_back_marks_what_it_writes() {
    let mut s = FfState::new();
    s.set_texture_stage_state(2, TEXTURETRANSFORMFLAGS, 2);
    let snapshot = FfStateSnapshot::from(&s);
    s.take_ff_vs_dirty();
    snapshot.restore_into(&mut s);
    assert_eq!(
        s.take_ff_vs_dirty(),
        FfVsDirty {
            wv: true,
            proj: true,
            material: true,
            lights: true,
            tt: true,
            palette: true,
            ..FfVsDirty::empty()
        }
    );
    // A vertex block holds the lights; no stage is switched.
    snapshot.restore_filtered(&mut s, StateBlockType::Vertex);
    assert_eq!(s.take_ff_vs_dirty(), FfVsDirty { lights: true, ..FfVsDirty::empty() });
    // A pixel block marks the texture transforms only where it switches one.
    snapshot.restore_filtered(&mut s, StateBlockType::Pixel);
    assert_eq!(s.take_ff_vs_dirty(), FfVsDirty::empty());
    s.set_texture_stage_state(2, TEXTURETRANSFORMFLAGS, 0);
    s.take_ff_vs_dirty();
    snapshot.restore_filtered(&mut s, StateBlockType::Vertex);
    let by_vertex = s.texture_stage_state(2, TEXTURETRANSFORMFLAGS) == 2;
    assert_eq!(s.take_ff_vs_dirty().tt, by_vertex);
    s.set_texture_stage_state(2, TEXTURETRANSFORMFLAGS, 0);
    s.take_ff_vs_dirty();
    snapshot.restore_filtered(&mut s, StateBlockType::Pixel);
    let by_pixel = s.texture_stage_state(2, TEXTURETRANSFORMFLAGS) == 2;
    assert_eq!(s.take_ff_vs_dirty().tt, by_pixel);
    assert!(by_vertex || by_pixel);
}
