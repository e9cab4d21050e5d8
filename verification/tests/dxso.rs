//! Shader text for the fixed-function pipeline.

use mtld3d_core::dxso::{
    emit_ps_ff, emit_ps_ff_named, emit_vs_ff, emit_vs_ff_named, ff_attr_index_for_semantic, tt_count,
    tt_projected, FfPsKey, FfStage, FfVsFlags, FfVsKey, SharedText, VariantFlags, VariantKey,
    DEFAULT_PS_ENTRY, DEFAULT_VS_ENTRY,
};
use mtld3d_core::dxso::ff::active_stage_count;
use mtld3d_core::dxso::ff_vs::emit_vs;

const TEXTURE: u8 = 2;
const CURRENT: u8 = 1;
const DIFFUSE: u8 = 0;
const TFACTOR: u8 = 3;
const DISABLE: u8 = 1;
const SELECTARG1: u8 = 2;
const MODULATE: u8 = 4;

fn shared() -> SharedText {
    SharedText {
        vs_draw: "// vs_draw\n".to_string(),
        srgb_write_helper: "// srgb\n".to_string(),
        point_sprite_prologue: "    // sprite\n".to_string(),
        fog_blend: String::new(),
    }
}

fn vs_key(flags: FfVsFlags) -> FfVsKey {
    FfVsKey {
        flags,
        input_tex_coord_count: 0,
        tex_coord_count: 0,
        light_active_mask: 0,
        light_directional_mask: 0,
        light_spot_mask: 0,
        diffuse_source: 0,
        ambient_source: 0,
        specular_source: 0,
        emissive_source: 0,
        fog_mode: 0,
        tci_modes: [0; 8],
        tci_coord_indices: [0; 8],
        tex_coord_dims: [0; 8],
        tt_flags: [0; 8],
        vertex_blend_count: 0,
        declared_weights_count: 0,
        clip_plane_count: 0,
    }
}

fn disabled() -> FfStage {
    FfStage { color_op: DISABLE, alpha_op: DISABLE, ..FfStage::default() }
}

fn ps_key(first: FfStage) -> FfPsKey {
    let mut stages = [disabled(); 8];
    stages[0] = first;
    FfPsKey { stages, specular_add: false, tt_projected_mask: 0 }
}

fn varyings() -> String {
    let mut s = String::new();
    s.push_str("struct Varyings {\n    float4 position [[position, invariant]];\n");
    s.push_str("    float4 position1;\n");
    for i in 0..16 {
        s.push_str(&format!("    float4 texcoord{i};\n"));
    }
    s.push_str("    float4 color0;\n    float4 color1;\n    float4 fog;\n");
    s.push_str("    float fog_z [[center_no_perspective]];\n");
    s.push_str("    float point_size [[point_size]];\n};\n\n");
    s
}

#[test]
fn transformed_vertices_have_a_short_shader() {
    let k = FfVsKey {
        input_tex_coord_count: 1,
        tex_coord_count: 1,
        tex_coord_dims: [2, 0, 0, 0, 0, 0, 0, 0],
        ..vs_key(FfVsFlags { has_rhw: true, has_color0: true, ..FfVsFlags::none() })
    };
    let mut want = String::new();
    want.push_str("#include <metal_stdlib>\nusing namespace metal;\n\n");
    want.push_str("struct VertexIn {\n    float4 v0 [[attribute(0)]];\n");
    want.push_str("    float4 v2 [[attribute(2)]];\n    float4 v4 [[attribute(4)]];\n};\n\n");
    want.push_str(&varyings());
    want.push_str("// vs_draw\n");
    want.push_str("vertex Varyings main_vs(\n    VertexIn in [[stage_in]],\n");
    want.push_str("    constant float4 *vs_c [[buffer(16)]],\n");
    want.push_str("    constant float4 &pos_fixup [[buffer(17)]],\n");
    want.push_str("    constant VsDraw &vs_draw [[buffer(18)]]\n) {\n    Varyings out;\n");
    want.push_str("    float2 vp = vs_c[0].xy;\n    float2 vp_origin = vs_c[0].zw;\n");
    want.push_str("    float rhw = in.v0.w;\n    float w = 1.0 / max(rhw, 1e-30);\n");
    want.push_str(
        "    float ndc_x = ((in.v0.x - vp_origin.x) / vp.x) * 2.0 - 1.0 + 1.0 / vp.x;\n",
    );
    want.push_str(
        "    float ndc_y = 1.0 - ((in.v0.y - vp_origin.y) / vp.y) * 2.0 - 1.0 / vp.y;\n",
    );
    want.push_str("    out.position = float4(ndc_x * w, ndc_y * w, in.v0.z * w, w);\n");
    want.push_str("    float psize = vs_draw.point.x;\n");
    want.push_str(
        "    out.point_size = clamp(psize, vs_draw.point.y, vs_draw.point.z) * pos_fixup.w;\n",
    );
    want.push_str("    out.color0 = in.v2;\n    out.color1 = float4(0.0);\n");
    want.push_str("    out.texcoord0 = float4((float4(in.v4.xy, 0.0, 0.0)).xyz, 1.0);\n");
    for i in 1..8 {
        want.push_str(&format!("    out.texcoord{i} = float4(0.0);\n"));
    }
    want.push_str("    out.fog = float4(1.0);\n");
    want.push_str("    out.fog_z = out.position.z / out.position.w;\n");
    want.push_str("    if (pos_fixup.z != 0.0) { out.position.z = clamp(out.position.z, 0.0, out.position.w); }\n");
    want.push_str("    return out;\n}\n");
    assert_eq!(emit_vs_ff_named(&k, &shared(), "main_vs"), want);
}

#[test]
fn the_entry_has_a_default_name() {
    let k = vs_key(FfVsFlags::none());
    assert_eq!(emit_vs_ff(&k, &shared()), emit_vs_ff_named(&k, &shared(), DEFAULT_VS_ENTRY));
    let p = ps_key(disabled());
    let v = VariantKey::plain();
    assert_eq!(emit_ps_ff(&p, &v, &shared()), emit_ps_ff_named(&p, &v, &shared(), DEFAULT_PS_ENTRY));
}

#[test]
fn a_textured_stage_samples_its_texture() {
    let stage = FfStage {
        color_op: MODULATE,
        color_arg1: TEXTURE,
        color_arg2: CURRENT,
        alpha_op: SELECTARG1,
        alpha_arg1: DIFFUSE,
        alpha_arg2: CURRENT,
        has_texture: true,
    };
    let mut want = String::new();
    want.push_str("#include <metal_stdlib>\nusing namespace metal;\n\n");
    want.push_str(&varyings());
    want.push_str("fragment float4 main_ps(\n    Varyings in [[stage_in]],\n");
    want.push_str("    constant float4 *ps_c [[buffer(15)]]");
    want.push_str(",\n    texture2d<float> s0 [[texture(0)]],\n    sampler samp0 [[sampler(0)]]");
    want.push_str("\n) {\n    float4 current = in.color0;\n");
    want.push_str("    float4 t0 = s0.sample(samp0, in.texcoord0.xy);\n");
    want.push_str("    current = float4(((t0 * current)).rgb, (in.color0).a);\n");
    want.push_str("    float4 oC0 = current;\n    return oC0;\n}\n");
    assert_eq!(
        emit_ps_ff_named(&ps_key(stage), &VariantKey::plain(), &shared(), "main_ps"),
        want
    );
}

#[test]
fn variants_of_a_pixel_shader() {
    let stage = FfStage {
        color_op: SELECTARG1,
        color_arg1: TEXTURE,
        alpha_op: SELECTARG1,
        alpha_arg1: TFACTOR | 0x10,
        has_texture: true,
        ..FfStage::default()
    };
    let v = VariantKey {
        alpha_func: 5,
        cube_sampler_mask: 1,
        sample_mask: 0xff,
        flags: VariantFlags {
            srgb_write: true,
            sample_mask: true,
            lod_bias: true,
            flat_shade: true,
            ..VariantFlags::none()
        },
        ..VariantKey::plain()
    };
    let mut k = ps_key(stage);
    k.specular_add = true;
    k.tt_projected_mask = 1;
    let s = emit_ps_ff(&k, &v, &shared());
    assert!(s.contains("// srgb\nstruct FfPsOut {\n    float4 oC0 [[color(0)]];\n"));
    assert!(s.contains("    float4 color0 [[flat]];\n"));
    assert!(s.contains(",\n    constant float &alpha_ref [[buffer(14)]]"));
    assert!(s.contains(",\n    constant float4 *lod_bias [[buffer(11)]]"));
    assert!(s.contains("texturecube<float> s0 [[texture(0)]]"));
    assert!(s.contains(
        "s0.sample(samp0, (in.texcoord0.w != 0.0 ? in.texcoord0.xyz / in.texcoord0.w : float3(0.0)), bias(lod_bias[0].x));"
    ));
    assert!(s.contains("    current = float4((t0).rgb, ((1.0 - ps_c[0])).a);\n"));
    assert!(s.contains("    current = float4(saturate(current.rgb + in.color1.rgb), current.a);\n"));
    assert!(s.contains("    if (!(oC0.a > alpha_ref)) discard_fragment();\n"));
    assert!(s.contains("    oC0.rgb = mtld3d_linear_to_srgb(oC0.rgb);\n"));
    assert!(s.ends_with("    return FfPsOut { oC0, 255u };\n}\n"));
}

#[test]
fn fog_is_blended_where_it_is_on() {
    let fogged = VariantKey { fog_mode: 3, ..VariantKey::plain() };
    assert!(fogged.fog_blend_active());
    let blend = SharedText { fog_blend: "    // fog\n".to_string(), ..shared() };
    let s = emit_ps_ff(&ps_key(disabled()), &fogged, &blend);
    assert!(s.contains(",\n    constant float4 *fog_data [[buffer(13)]]"));
    assert!(s.contains("    float4 oC0 = current;\n    // fog\n    return oC0;\n"));
    let s = emit_ps_ff(&ps_key(disabled()), &VariantKey::plain(), &shared());
    assert!(!s.contains("fog_data"));
}

#[test]
fn a_stage_without_its_texture_keeps_the_current_colour() {
    let stage = FfStage {
        color_op: MODULATE,
        color_arg1: TEXTURE,
        color_arg2: DIFFUSE,
        alpha_op: SELECTARG1,
        alpha_arg1: DIFFUSE,
        ..FfStage::default()
    };
    let s = emit_ps_ff(&ps_key(stage), &VariantKey::plain(), &shared());
    assert!(s.contains("    current = float4((current).rgb, (in.color0).a);\n"));
    assert!(!s.contains("[[texture("));
}

#[test]
fn lit_vertices_sum_their_lights() {
    let k = FfVsKey {
        light_active_mask: 0b11,
        light_directional_mask: 0b01,
        light_spot_mask: 0b10,
        fog_mode: 3,
        ..vs_key(FfVsFlags { has_normal: true, lighting_enabled: true, ..FfVsFlags::none() })
    };
    let s = emit_vs_ff(&k, &shared());
    assert!(s.contains("static inline float mtld3d_det3(float3 a, float3 b, float3 c) {\n"));
    // The second light, at row 21, is a spot.
    assert!(s.contains("        float rho = dot(-L, vs_c[22].xyz);\n"));
    assert!(s.contains(
        "        atten *= pow(saturate(rho * vs_c[26].w + vs_c[24].w), vs_c[22].w);\n"
    ));
    assert!(s.contains("    out.color0 = lit;\n"));
    assert!(s.contains(
        "        float f = fogRange == 0.0 ? 0.0 : saturate((fogEnd - eyeZ) / fogRange);\n"
    ));
    // Without the lights being on the masks do not matter.
    let dark = FfVsKey { light_active_mask: 0, light_spot_mask: 0, light_directional_mask: 0, ..k };
    let same = FfVsKey { light_spot_mask: 0xff, light_directional_mask: 0x0f, ..dark };
    assert_eq!(emit_vs_ff(&dark, &shared()), emit_vs_ff(&same, &shared()));
}

#[test]
fn blended_vertices_weigh_their_matrices() {
    let k = FfVsKey {
        vertex_blend_count: 2,
        declared_weights_count: 1,
        ..vs_key(FfVsFlags::none())
    };
    let s = emit_vs_ff(&k, &shared());
    assert!(s.contains("    float4 blend_weight [[attribute(12)]];\n"));
    assert!(s.contains("        float w = in.blend_weight[0];\n        uint idx = 0u;\n"));
    assert!(s.contains("        float w = 1.0 - weight_sum;\n        uint idx = 1u;\n"));
}

#[test]
fn transformed_coordinates_use_their_rows() {
    let k = FfVsKey {
        input_tex_coord_count: 2,
        tex_coord_count: 2,
        tex_coord_dims: [2, 3, 0, 0, 0, 0, 0, 0],
        tci_coord_indices: [0, 1, 0, 0, 0, 0, 0, 0],
        tt_flags: [0, 0x13, 0, 0, 0, 0, 0, 0],
        ..vs_key(FfVsFlags::none())
    };
    let s = emit_vs_ff(&k, &shared());
    assert!(s.contains("    float4 raw0 = float4(in.v4.xy, 0.0, 0.0);\n    out.texcoord0 = raw0;\n"));
    assert!(s.contains("    raw1[3] = 1.0;\n    float4 r1 = float4(dot(raw1, vs_c[67]), dot(raw1, vs_c[68]), dot(raw1, vs_c[69]), dot(raw1, vs_c[70]));\n"));
    assert!(s.contains("    out.texcoord1 = float4(r1.x, r1.y, r1.z, r1.z);\n"));
    assert_eq!((tt_count(0x13), tt_projected(0x13)), (3, true));
    assert_eq!((tt_count(0x02), tt_projected(0x02)), (2, false));
}

#[test]
fn stages_behind_the_first_disabled_one_do_not_matter() {
    let stage = FfStage {
        color_op: SELECTARG1,
        color_arg1: TFACTOR,
        alpha_op: SELECTARG1,
        ..FfStage::default()
    };
    let k = ps_key(stage);
    assert_eq!(active_stage_count(&k.stages), 1);
    assert!(k.reads_texture_factor());
    assert_eq!(k.sampled_stage_mask(), 0);
    let mut other = ps_key(stage);
    other.stages[2] = FfStage { has_texture: true, color_op: MODULATE, ..stage };
    let v = VariantKey::plain();
    assert_eq!(emit_ps_ff(&k, &v, &shared()), emit_ps_ff(&other, &v, &shared()));
    let mut two = ps_key(FfStage { has_texture: true, ..stage });
    two.stages[1] = FfStage { has_texture: true, ..stage };
    assert_eq!(active_stage_count(&two.stages), 2);
    assert_eq!(two.sampled_stage_mask(), 0b11);
}

#[test]
fn semantics_have_fixed_attributes() {
    assert_eq!(ff_attr_index_for_semantic(0, 0), Some(0));
    assert_eq!(ff_attr_index_for_semantic(3, 0), Some(1));
    assert_eq!(ff_attr_index_for_semantic(10, 1), Some(3));
    assert_eq!(ff_attr_index_for_semantic(5, 7), Some(11));
    assert_eq!(ff_attr_index_for_semantic(5, 8), None);
    assert_eq!(ff_attr_index_for_semantic(6, 0), None);
}

#[test]
fn declared_textures_are_the_sampled_stages() {
    let stage = FfStage {
        color_op: SELECTARG1,
        color_arg1: TEXTURE,
        alpha_op: SELECTARG1,
        ..FfStage::default()
    };
    let mut k = ps_key(FfStage { has_texture: true, ..stage });
    k.stages[1] = stage;
    k.stages[2] = FfStage { has_texture: true, ..stage };
    k.stages[3] = FfStage { color_op: DISABLE, ..stage };
    k.stages[4] = FfStage { has_texture: true, ..stage };
    let mask = k.sampled_stage_mask();
    assert_eq!(mask, 0b101);
    let text = emit_ps_ff(&k, &VariantKey::plain(), &shared());
    for i in 0..8 {
        let sampled = mask & (1 << i) != 0;
        assert_eq!(text.contains(&format!("[[texture({i})]]")), sampled, "{i}");
        assert_eq!(text.contains(&format!("[[sampler({i})]]")), sampled, "{i}");
    }
}

#[test]
fn transformed_vertices_pass_through() {
    let flags = FfVsFlags { has_rhw: true, has_color0: true, ..FfVsFlags::none() };
    let plain = FfVsKey {
        input_tex_coord_count: 1,
        tex_coord_count: 1,
        tex_coord_dims: [2, 0, 0, 0, 0, 0, 0, 0],
        ..vs_key(flags)
    };
    let mut busy = plain;
    busy.flags.lighting_enabled = true;
    busy.light_active_mask = 3;
    busy.diffuse_source = 1;
    busy.tci_modes = [2; 8];
    busy.vertex_blend_count = 3;
    let function = |k: &FfVsKey| {
        let text = emit_vs_ff(k, &shared());
        text[text.find("vertex Varyings").unwrap()..].to_string()
    };
    assert_eq!(function(&plain), function(&busy));
    assert_eq!(emit_vs(&plain, "f"), emit_vs(&busy, "f"));
    assert_eq!(emit_vs(&plain, DEFAULT_VS_ENTRY), function(&plain));
    busy.fog_mode = 4;
    busy.flags.has_color1 = true;
    assert_ne!(function(&plain), function(&busy));
}
