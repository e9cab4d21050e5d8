//! What holds of fixed-function shaders as a whole.

use super::ff::{active_from, active_stages, attr_index, FfPsKey, FfStage, FfVsFlags, FfVsKey};
use super::ff_ps::{
    apply_op_text, combined_text, emit_ps_ff_named_text, resolve_arg_text, selected_text,
    stage_text, stages_text, texture_arg_text, texture_args_text, texture_or_current,
};
use super::ff_vs::{
    ambient_text, blend_index_text, blend_many_text, blend_single_text, blend_term_text,
    blend_weighted_text, blends_weighted_text, diffuse_text, emissive_text, emit_point_size_text,
    emit_vertex_blend_text, emit_vertex_in_text, emit_vs_ff_named_text, emit_vs_text,
    light_diffuse_text, light_specular_text, light_text, lights_text, lit_normal_text,
    lit_setup_text, masked_input_rhs_text, rhw_coord_text, rhw_coords_text, specular_text,
    stage_coord_text, stage_coords_text, stage_dim, stage_raw_text, stage_source, uses_mode,
    vertex_in_coord_text, vs_colors_text, vs_eye_text, vs_fog_text, vs_lighting_text,
    vs_position_text, vs_rhw_text, vs_texgen_normal_text, vs_transformed_text,
};
use super::variant::{SharedText, VariantKey};
use crate::bits::bit8;
use crate::d3d9::D3DDECLUSAGE_TEXCOORD;
use crate::text::{dec, equal_pieces, given};
use vstd::prelude::*;

verus! {

/// A stage without a texture never names one: its text is the same whichever
/// stage it stands in.
pub proof fn untextured_stages_name_no_texture(op: u8, arg1: u8, arg2: u8, i: int, j: int)
    ensures
        combined_text(op, arg1, arg2, i, false) == combined_text(op, arg1, arg2, j, false),
{
    argument_names_no_texture(arg1, i, j);
    argument_names_no_texture(arg2, i, j);
    let a = resolve_arg_text(arg1, i, false);
    let b = resolve_arg_text(arg2, i, false);
    operation_names_no_texture(op, a, b, i, j);
}

proof fn argument_names_no_texture(arg: u8, i: int, j: int)
    ensures
        resolve_arg_text(arg, i, false) == resolve_arg_text(arg, j, false),
{
    assert(selected_text(arg, i, false) == selected_text(arg, j, false));
}

proof fn operation_names_no_texture(op: u8, a: Seq<char>, b: Seq<char>, i: int, j: int)
    ensures
        apply_op_text(op, a, b, i, false) == apply_op_text(op, a, b, j, false),
{
    assert(texture_or_current(i, false) == texture_or_current(j, false));
}

proof fn active_count_is_shared(a: Seq<FfStage>, b: Seq<FfStage>, i: int)
    requires
        a.len() == b.len(),
        0 <= i <= a.len(),
        forall|j: int| i <= j <= active_from(a, i) && j < a.len() ==> a[j] == b[j],
    ensures
        active_from(a, i) == active_from(b, i),
        active_from(a, i) >= i,
    decreases a.len() - i,
{
    if i < a.len() {
        if !a[i].is_disabled_spec() {
            active_from_grows(a, i + 1);
            assert(a[i] == b[i]);
            active_count_is_shared(a, b, i + 1);
        } else {
            assert(a[i] == b[i]);
        }
    }
}

proof fn active_from_grows(a: Seq<FfStage>, i: int)
    ensures
        active_from(a, i) >= i,
    decreases a.len() - i,
{
    if 0 <= i < a.len() && !a[i].is_disabled_spec() {
        active_from_grows(a, i + 1);
    }
}

/// Stages behind the first disabled one do not matter: two keys that agree up to
/// and with it, and in all else, have the same shader.
pub proof fn stages_behind_the_end_do_not_matter(
    a: FfPsKey,
    b: FfPsKey,
    v: VariantKey,
    shared: SharedText,
    entry: Seq<char>,
)
    requires
        forall|j: int|
            0 <= j <= active_stages(a.stages@) && j < 8 ==> #[trigger] a.stages@[j] == b.stages@[j],
        a.specular_add == b.specular_add,
        a.tt_projected_mask == b.tt_projected_mask,
    ensures
        emit_ps_ff_named_text(a, v, shared, entry) == emit_ps_ff_named_text(b, v, shared, entry),
{
    active_count_is_shared(a.stages@, b.stages@, 0);
    let f = |i: int| given(a.samples(i), texture_arg_text(v, i));
    let g = |i: int| given(b.samples(i), texture_arg_text(v, i));
    assert forall|i: int| 0 <= i < 8 implies #[trigger] f(i) == g(i) by {
        if i < active_stages(a.stages@) {
            assert(a.stages@[i] == b.stages@[i]);
        }
    }
    equal_pieces(8, f, g);
    assert(texture_args_text(a, v) == texture_args_text(b, v));
    let p = |i: int| stage_text(a, v, i);
    let q = |i: int| stage_text(b, v, i);
    assert forall|i: int| 0 <= i < active_stages(a.stages@) implies #[trigger] p(i) == q(i) by {
        active_stages_fit(a.stages@, 0);
        assert(a.stages@[i] == b.stages@[i]);
    }
    equal_pieces(active_stages(a.stages@) as nat, p, q);
    assert(stages_text(a, v) == stages_text(b, v));
}

proof fn active_stages_fit(a: Seq<FfStage>, i: int)
    requires
        0 <= i <= a.len(),
    ensures
        active_from(a, i) <= a.len(),
    decreases a.len() - i,
{
    if i < a.len() && !a[i].is_disabled_spec() {
        active_stages_fit(a, i + 1);
    }
}

/// Whether two keys differ at most in lighting.
pub open spec fn alike_but_for_lighting(a: FfVsKey, b: FfVsKey) -> bool {
    b == (FfVsKey {
        light_active_mask: b.light_active_mask,
        light_directional_mask: b.light_directional_mask,
        light_spot_mask: b.light_spot_mask,
        flags: FfVsFlags { lighting_enabled: b.flags.lighting_enabled, ..a.flags },
        ..a
    })
}

/// Whether two keys agree in all that matters to vertices that are already on the screen:
/// the point size, the colours, the coordinates and the fog.
pub open spec fn alike_on_the_screen(a: FfVsKey, b: FfVsKey) -> bool {
    &&& a.flags.has_psize == b.flags.has_psize
    &&& a.flags.has_color0 == b.flags.has_color0
    &&& a.flags.has_color1 == b.flags.has_color1
    &&& a.input_tex_coord_count == b.input_tex_coord_count
    &&& a.tex_coord_count == b.tex_coord_count
    &&& a.tex_coord_dims == b.tex_coord_dims
    &&& a.tci_coord_indices == b.tci_coord_indices
    &&& a.fog_mode == b.fog_mode
}

proof fn rhw_goes_by(a: FfVsKey, b: FfVsKey)
    requires
        alike_on_the_screen(a, b),
    ensures
        vs_rhw_text(a) == vs_rhw_text(b),
{
    let n = a.tex_coord_count as nat;
    assert forall|i: int| rhw_coord_text(a, i) == rhw_coord_text(b, i) by {
        assert(masked_input_rhs_text(a, stage_source(a, i)) == masked_input_rhs_text(
            b,
            stage_source(b, i),
        ));
    }
    equal_pieces(n, |i: int| rhw_coord_text(a, i), |i: int| rhw_coord_text(b, i));
    assert(rhw_coords_text(a) == rhw_coords_text(b));
    assert(emit_point_size_text(a, false) == emit_point_size_text(b, false));
    assert(vs_colors_text(a) == vs_colors_text(b));
}

proof fn position_goes_by(a: FfVsKey, b: FfVsKey)
    requires
        alike_but_for_lighting(a, b),
    ensures
        vs_position_text(a) == vs_position_text(b),
{
    let m = a.vertex_blend_count - 1;
    assert forall|i: int| blend_weighted_text(a, i) == blend_weighted_text(b, i) by {
        assert(blend_index_text(a, i) == blend_index_text(b, i));
        assert(blend_term_text(a) == blend_term_text(b));
    }
    equal_pieces(m as nat, |i: int| blend_weighted_text(a, i), |i: int| blend_weighted_text(b, i));
    assert(blends_weighted_text(a, m) == blends_weighted_text(b, m));
    assert(blend_many_text(a) == blend_many_text(b)) by {
        assert(blend_index_text(a, m) == blend_index_text(b, m));
        assert(blend_term_text(a) == blend_term_text(b));
    }
    assert(blend_single_text(a) == blend_single_text(b));
    assert(emit_vertex_blend_text(a) == emit_vertex_blend_text(b));
    assert(emit_point_size_text(a, a.flags.point_scale) == emit_point_size_text(
        b,
        b.flags.point_scale,
    ));
}

proof fn stages_go_by(a: FfVsKey, b: FfVsKey)
    requires
        alike_but_for_lighting(a, b),
    ensures
        stage_coords_text(a) == stage_coords_text(b),
{
    let n = a.tex_coord_count as nat;
    assert forall|i: int| stage_coord_text(a, i) == stage_coord_text(b, i) by {
        assert(masked_input_rhs_text(a, stage_source(a, i)) == masked_input_rhs_text(
            b,
            stage_source(b, i),
        ));
        assert(stage_raw_text(a, i) == stage_raw_text(b, i));
        assert(stage_dim(a, i) == stage_dim(b, i));
    }
    equal_pieces(n, |i: int| stage_coord_text(a, i), |i: int| stage_coord_text(b, i));
}

/// A light that does not shine has no influence on the shader, whatever kind of
/// light it is.
pub proof fn dark_lights_do_not_matter(
    k: FfVsKey,
    directional: u8,
    spot: u8,
    shared: SharedText,
    entry: Seq<char>,
)
    requires
        forall|i: int|
            0 <= i < 8 && #[trigger] bit8(k.light_active_mask, i) ==> bit8(directional, i) == bit8(
                k.light_directional_mask,
                i,
            ) && bit8(spot, i) == bit8(k.light_spot_mask, i),
    ensures
        emit_vs_ff_named_text(
            (FfVsKey { light_directional_mask: directional, light_spot_mask: spot, ..k }),
            shared,
            entry,
        ) == emit_vs_ff_named_text(k, shared, entry),
{
    let other = FfVsKey { light_directional_mask: directional, light_spot_mask: spot, ..k };
    assert forall|i: int| 0 <= i < 8 && bit8(k.light_active_mask, i) implies light_text(k, i)
        == light_text(other, i) by {
        light_goes_by(k, other, i);
    }
    lights_go_by(k, other);
    lighting_goes_by(k, other);
    rhw_goes_by(k, other);
    transformed_goes_by(k, other);
    assert(emit_vs_text(k, entry) == emit_vs_text(other, entry));
    assert(emit_vertex_in_text(k) == emit_vertex_in_text(other));
}

proof fn light_goes_by(a: FfVsKey, b: FfVsKey, i: int)
    requires
        alike_but_for_lighting(a, b),
        bit8(a.light_directional_mask, i) == bit8(b.light_directional_mask, i),
        bit8(a.light_spot_mask, i) == bit8(b.light_spot_mask, i),
    ensures
        light_text(a, i) == light_text(b, i),
{
    let base = 15 + i * 6;
    assert(diffuse_text(a) == diffuse_text(b));
    assert(specular_text(a) == specular_text(b));
    assert(ambient_text(a) == ambient_text(b));
    assert(light_diffuse_text(a, base) == light_diffuse_text(b, base));
    assert(light_specular_text(a, base) == light_specular_text(b, base));
}

proof fn lights_go_by(a: FfVsKey, b: FfVsKey)
    requires
        a.light_active_mask == b.light_active_mask,
        forall|i: int|
            0 <= i < 8 && bit8(a.light_active_mask, i) ==> #[trigger] light_text(a, i)
                == light_text(b, i),
    ensures
        lights_text(a) == lights_text(b),
{
    let f = |i: int| given(bit8(a.light_active_mask, i), light_text(a, i));
    let g = |i: int| given(bit8(b.light_active_mask, i), light_text(b, i));
    equal_pieces(8, f, g);
}

proof fn lighting_goes_by(a: FfVsKey, b: FfVsKey)
    requires
        alike_but_for_lighting(a, b),
        lights_text(a) == lights_text(b),
    ensures
        vs_lighting_text(a) == vs_lighting_text(b),
{
    assert(emissive_text(a) == emissive_text(b));
    assert(ambient_text(a) == ambient_text(b));
    assert(diffuse_text(a) == diffuse_text(b));
    assert(lit_normal_text(a) == lit_normal_text(b));
    assert(lit_setup_text(a) == lit_setup_text(b));
}

proof fn transformed_goes_by(a: FfVsKey, b: FfVsKey)
    requires
        alike_but_for_lighting(a, b),
        a.flags == b.flags,
        vs_lighting_text(a) == vs_lighting_text(b),
    ensures
        vs_transformed_text(a) == vs_transformed_text(b),
{
    position_goes_by(a, b);
    stages_go_by(a, b);
    modes_go_by(a, b, 1, 3);
    modes_go_by(a, b, 2, 3);
    modes_go_by(a, b, 1, 1);
    normal_and_fog_go_by(a, b);
    eye_goes_by(a, b, uses_mode(a, 1, 3) && a.flags.has_normal, uses_mode(a, 2, 3));
}

proof fn modes_go_by(a: FfVsKey, b: FfVsKey, x: u8, y: u8)
    requires
        alike_but_for_lighting(a, b),
    ensures
        uses_mode(a, x, y) == uses_mode(b, x, y),
{
    assert(a.tci_modes == b.tci_modes);
    assert(a.tex_coord_count == b.tex_coord_count);
    assert forall|i: int| a.tci_modes@[i] == #[trigger] b.tci_modes@[i] by {}
}

proof fn normal_and_fog_go_by(a: FfVsKey, b: FfVsKey)
    requires
        alike_but_for_lighting(a, b),
    ensures
        vs_texgen_normal_text(a) == vs_texgen_normal_text(b),
        vs_fog_text(a) == vs_fog_text(b),
        vs_colors_text(a) == vs_colors_text(b),
{
}

proof fn eye_goes_by(a: FfVsKey, b: FfVsKey, normal: bool, position: bool)
    requires
        alike_but_for_lighting(a, b),
    ensures
        vs_eye_text(a, normal, position) == vs_eye_text(b, normal, position),
{
}

/// Vertices that are already on the screen are neither transformed, blended nor lit, and
/// their coordinates are not generated: two keys of such vertices that agree in the point
/// size, the colours, the coordinates and the fog have the same function.
pub proof fn transformed_vertices_are_passed_through(a: FfVsKey, b: FfVsKey, entry: Seq<char>)
    requires
        a.flags.has_rhw,
        b.flags.has_rhw,
        alike_on_the_screen(a, b),
    ensures
        emit_vs_text(a, entry) == emit_vs_text(b, entry),
{
    rhw_goes_by(a, b);
}

/// The shader declares coordinate set `i` at the attribute that declarations bind it to.
pub proof fn coordinate_sets_agree_with_declarations(i: u8)
    requires
        i < 8,
    ensures
        attr_index(D3DDECLUSAGE_TEXCOORD, i) matches Some(n) && vertex_in_coord_text(i as int)
            == Seq::<char>::empty() + "    float4 v"@ + dec(n as nat) + " [[attribute("@ + dec(
            n as nat,
        ) + ")]];\n"@,
{
}

} // verus!
