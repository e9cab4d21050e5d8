//! How states find their way into keys, by the numbers that Direct3D gives them.

use super::keys::{
    fog_config, is_ps_key, is_vs_key, ps_stage, stage_transform, textured_end, variant_of,
};
use super::lights::{shines, shining, there_is_a_shining_list};
use super::stages::{bump_word, stage_set};
use super::{is_initial, FfStateView};
use crate::bits::bit8;
use crate::convert::vertex::FfVsLayout;
use crate::d3d9::{tss_default, StateBlockType};
use crate::dxso::ff_vs::{tt_count_spec, tt_projected_spec};
use crate::dxso::{FfPsKey, FfStage, FfVsKey};
use vstd::prelude::*;

verus! {

/// What a stage of a key has for a texture stage state with a number: its colour operation
/// and two arguments, then its alpha operation and two arguments.
pub open spec fn stage_entry(s: FfStage, t: int) -> u8 {
    if t == 1 {
        s.color_op
    } else if t == 2 {
        s.color_arg1
    } else if t == 3 {
        s.color_arg2
    } else if t == 4 {
        s.alpha_op
    } else if t == 5 {
        s.alpha_arg1
    } else {
        s.alpha_arg2
    }
}

/// A texture stage state that is set is what the key has in its place, and setting it
/// leaves every other entry of every stage as it was: no two states share an entry, and
/// none is read from another stage.
pub proof fn stage_states_reach_their_entry(
    v: FfStateView,
    rs: Seq<u32>,
    mask: u8,
    before: FfPsKey,
    after: FfPsKey,
    stage: int,
    ty: int,
    value: u32,
    i: int,
    t: int,
)
    requires
        v.stages.len() == 8,
        forall|n: int| 0 <= n < 8 ==> (#[trigger] v.stages[n]).len() == 33,
        0 <= stage < 8,
        0 <= ty < 33,
        0 <= i < 8,
        1 <= t <= 6,
        value <= 0xff,
        is_ps_key(v, rs, mask, before),
        is_ps_key(stage_set(v, stage, ty, value), rs, mask, after),
    ensures
        stage_entry(after.stages@[i], t) == (if i == stage && t == ty {
            value as u8
        } else {
            stage_entry(before.stages@[i], t)
        }),
        after.stages@[i].has_texture == before.stages@[i].has_texture,
        after.specular_add == before.specular_add,
{
    assert(after.stages@[i] == ps_stage(stage_set(v, stage, ty, value).stages, mask, i));
    assert(before.stages@[i] == ps_stage(v.stages, mask, i));
}

/// A stage has a texture if and only if its bit of the mask is set, the specular colour is
/// added if and only if it is on, and a coordinate is divided if and only if its stage says
/// so.
pub proof fn pixel_keys_follow_the_state(
    v: FfStateView,
    rs: Seq<u32>,
    mask: u8,
    k: FfPsKey,
    i: int,
)
    requires
        0 <= i < 8,
        is_ps_key(v, rs, mask, k),
    ensures
        k.stages@[i].has_texture == bit8(mask, i),
        k.specular_add == (rs[29] != 0),
        bit8(k.tt_projected_mask, i) == (v.stages[i][24] / 0x100 % 2 == 1),
        bit8(k.tt_projected_mask, i) == tt_projected_spec(stage_transform(v.stages[i][24])),
{
    assert(k.stages@[i] == ps_stage(v.stages, mask, i));
    transform_flags_are_packed(v.stages[i][24]);
}

/// A vertex shader is lit when lighting is on and the vertex is not on the screen already,
/// and each other flag goes by its own render state or by the vertex alone.
pub proof fn vertex_flags_follow_their_states(
    v: FfStateView,
    rs: Seq<u32>,
    layout: FfVsLayout,
    mask: u8,
    planes: u8,
    k: FfVsKey,
)
    requires
        is_vs_key(v, rs, layout, mask, planes, k),
    ensures
        k.flags.lighting_enabled <==> rs[137] != 0 && !layout.flags.has_rhw,
        k.flags.color_vertex <==> rs[141] != 0,
        k.flags.specular_enable <==> rs[29] != 0,
        k.flags.vertex_blend_indexed <==> rs[167] != 0,
        k.flags.local_viewer <==> rs[142] != 0 && rs[29] != 0 && rs[137] != 0
            && !layout.flags.has_rhw,
        k.flags.normalize_normals <==> rs[143] != 0 && layout.flags.has_normal && rs[137] != 0
            && !layout.flags.has_rhw,
        k.flags.point_scale <==> rs[157] != 0 && !layout.flags.has_rhw,
        k.flags.has_normal == layout.flags.has_normal,
        k.flags.has_color0 == layout.flags.has_color0,
        k.flags.has_color1 == layout.flags.has_color1,
        k.flags.has_rhw == layout.flags.has_rhw,
        k.flags.has_psize == layout.flags.has_psize,
        k.flags.declared_indices == layout.flags.declared_indices,
        k.input_tex_coord_count == layout.tex_coord_count,
        k.tex_coord_dims == layout.tex_coord_dims,
        k.declared_weights_count == layout.declared_weights_count,
        k.clip_plane_count == (if layout.flags.has_rhw {
            0
        } else {
            planes
        }),
{
}

/// The material colours come from where their own states say, the fog is the one by vertex,
/// and a vertex is blended from one matrix more than it has weights, or from the indexed one
/// alone.
pub proof fn vertex_sources_follow_their_states(
    v: FfStateView,
    rs: Seq<u32>,
    layout: FfVsLayout,
    mask: u8,
    planes: u8,
    k: FfVsKey,
)
    requires
        is_vs_key(v, rs, layout, mask, planes, k),
    ensures
        rs[145] <= 2 ==> k.diffuse_source == rs[145],
        rs[146] <= 2 ==> k.specular_source == rs[146],
        rs[147] <= 2 ==> k.ambient_source == rs[147],
        rs[148] <= 2 ==> k.emissive_source == rs[148],
        rs[145] > 2 ==> k.diffuse_source == 0,
        rs[146] > 2 ==> k.specular_source == 0,
        rs[147] > 2 ==> k.ambient_source == 0,
        rs[148] > 2 ==> k.emissive_source == 0,
        1 <= rs[151] <= 3 && layout.declared_weights_count > 0 && (rs[167] == 0
            || layout.flags.declared_indices) ==> k.vertex_blend_count == rs[151] + 1,
        rs[151] == 256 && rs[167] != 0 && layout.flags.declared_indices ==> k.vertex_blend_count
            == 1,
        k.vertex_blend_count > 0 ==> (1 <= rs[151] <= 3 && layout.declared_weights_count > 0)
            || rs[151] == 256 && rs[167] != 0,
        k.vertex_blend_count > 0 && rs[167] != 0 ==> layout.flags.declared_indices,
{
}

/// Fog is off when it is not enabled. A function by pixel goes before one by vertex; without
/// either the factor comes with the vertex, and so it does for vertices on the screen.
pub proof fn fog_follows_its_states(rs: Seq<u32>, has_rhw: bool)
    ensures
        rs[28] == 0 ==> fog_config(rs, has_rhw).vertex_mode == 0 && fog_config(
            rs,
            has_rhw,
        ).table_mode == 0,
        rs[28] != 0 && 1 <= rs[35] <= 3 ==> fog_config(rs, has_rhw).table_mode == rs[35]
            && fog_config(rs, has_rhw).vertex_mode == 0,
        rs[28] != 0 && rs[35] == 0 ==> fog_config(rs, has_rhw).table_mode == 0,
        rs[28] != 0 && rs[35] == 0 && has_rhw ==> fog_config(rs, has_rhw).vertex_mode == 4,
        rs[28] != 0 && rs[35] == 0 && !has_rhw && rs[140] == 0 ==> fog_config(
            rs,
            has_rhw,
        ).vertex_mode == 4,
        rs[28] != 0 && rs[35] == 0 && !has_rhw && 1 <= rs[140] <= 3 ==> fog_config(
            rs,
            has_rhw,
        ).vertex_mode == rs[140],
        rs[28] != 0 && rs[35] == 0 && !has_rhw && rs[140] > 3 ==> fog_config(
            rs,
            has_rhw,
        ).vertex_mode == 0,
        rs[35] > 3 ==> fog_config(rs, has_rhw).vertex_mode == 0 && fog_config(
            rs,
            has_rhw,
        ).table_mode == 0,
{
}

/// A key of a vertex shader has the fog that is computed by vertex.
pub proof fn vertex_keys_have_the_vertex_fog(
    v: FfStateView,
    rs: Seq<u32>,
    layout: FfVsLayout,
    mask: u8,
    planes: u8,
    k: FfVsKey,
)
    requires
        is_vs_key(v, rs, layout, mask, planes, k),
    ensures
        k.fog_mode == fog_config(rs, layout.flags.has_rhw).vertex_mode,
        k.fog_mode == variant_of(v, rs, layout.flags.has_rhw).fog_mode,
{
}

proof fn transform_flags_are_packed(flags: u32)
    ensures
        tt_projected_spec(stage_transform(flags)) == (flags / 0x100 % 2 == 1),
        tt_count_spec(stage_transform(flags)) == (if 2 <= flags <= 4 {
            flags as int
        } else if 0x102 <= flags <= 0x104 {
            flags - 0x100
        } else {
            0
        }),
{
    let f = stage_transform(flags);
    assert(f <= 4 || 16 <= f <= 20);
    assert(f <= 4 ==> f & 0x10 == 0 && f & 0x07 == f) by (bit_vector);
    assert(16 <= f <= 20 ==> f & 0x10 != 0 && f & 0x07 == f - 16) by (bit_vector);
}

/// The coordinate index of a stage tells where its coordinate comes from in its upper half
/// and which set it is in its lowest byte; the transform flags tell how many components the
/// transform has, two to four or else none, and whether they are divided. Each stage has its
/// own.
pub proof fn coordinates_follow_their_stage(
    v: FfStateView,
    rs: Seq<u32>,
    layout: FfVsLayout,
    mask: u8,
    planes: u8,
    k: FfVsKey,
    i: int,
    mode: u32,
    set: u32,
)
    requires
        is_vs_key(v, rs, layout, mask, planes, k),
        0 <= i < 8,
        mode <= 0xff,
        set <= 0xff,
    ensures
        v.stages[i][11] == mode * 0x1_0000 + set ==> k.tci_modes@[i] == mode
            && k.tci_coord_indices@[i] == set,
        tt_projected_spec(k.tt_flags@[i]) <==> v.stages[i][24] / 0x100 % 2 == 1,
        2 <= v.stages[i][24] <= 4 ==> tt_count_spec(k.tt_flags@[i]) == v.stages[i][24],
        0x102 <= v.stages[i][24] <= 0x104 ==> tt_count_spec(k.tt_flags@[i]) == v.stages[i][24]
            - 0x100,
        v.stages[i][24] <= 1 ==> tt_count_spec(k.tt_flags@[i]) == 0,
{
    assert(k.tci_modes@[i] == v.stages[i][11] / 0x1_0000 % 0x100);
    assert(k.tci_coord_indices@[i] == v.stages[i][11] % 0x100);
    assert(k.tt_flags@[i] == stage_transform(v.stages[i][24]));
    transform_flags_are_packed(v.stages[i][24]);
}

proof fn textured_end_is_exact(stages: Seq<Seq<u32>>, mask: u8, n: int)
    requires
        0 <= n,
    ensures
        0 <= textured_end(stages, mask, n) <= n,
        forall|i: int|
            0 <= i < n && #[trigger] bit8(mask, i) && (forall|j: int|
                0 <= j <= i ==> (#[trigger] stages[j])[1] != 1) ==> i < textured_end(
                stages,
                mask,
                n,
            ),
        textured_end(stages, mask, n) > 0 ==> bit8(mask, textured_end(stages, mask, n) - 1)
            && forall|j: int|
            0 <= j < textured_end(stages, mask, n) ==> (#[trigger] stages[j])[1] != 1,
    decreases n,
{
    if n > 0 {
        textured_end_is_exact(stages, mask, n - 1);
        let chained = super::keys::is_chained(stages, n - 1);
        if bit8(mask, n - 1) {
            assert(chained <==> forall|j: int| 0 <= j <= n - 1 ==> (#[trigger] stages[j])[1] != 1)
                by {
                if chained {
                    assert forall|j: int| 0 <= j <= n - 1 implies (#[trigger] stages[j])[1] != 1 by {
                        assert(stages[j][crate::d3d9::D3DTSS_COLOROP as int]
                            != crate::d3d9::D3DTOP_DISABLE);
                    }
                }
            }
        }
    }
}

/// Every stage that samples a texture gets a coordinate, and so does every coordinate set of
/// the vertex, up to eight; and no more stages do than that takes.
pub proof fn sampled_stages_get_a_coordinate(
    v: FfStateView,
    rs: Seq<u32>,
    layout: FfVsLayout,
    mask: u8,
    planes: u8,
    k: FfVsKey,
    i: int,
)
    requires
        is_vs_key(v, rs, layout, mask, planes, k),
        0 <= i < 8,
    ensures
        bit8(mask, i) && (forall|j: int| 0 <= j <= i ==> (#[trigger] v.stages[j])[1] != 1) ==> i
            < k.tex_coord_count,
        k.tex_coord_count <= 8,
        layout.tex_coord_count <= 8 ==> layout.tex_coord_count <= k.tex_coord_count,
        k.tex_coord_count > layout.tex_coord_count ==> bit8(mask, k.tex_coord_count - 1)
            && forall|j: int|
            0 <= j < k.tex_coord_count ==> (#[trigger] v.stages[j])[1] != 1,
{
    textured_end_is_exact(v.stages, mask, 8);
}

/// Slot `i` of a lit key is active if and only if that many lights with lower indices shine
/// before one that does, and its kind is that of the light: spots are of type 2 and
/// directional lights of type 3. A vertex that is not lit has no light.
pub proof fn light_slots_follow_the_lights(
    v: FfStateView,
    rs: Seq<u32>,
    layout: FfVsLayout,
    mask: u8,
    planes: u8,
    k: FfVsKey,
    i: int,
)
    requires
        is_vs_key(v, rs, layout, mask, planes, k),
        0 <= i < 8,
    ensures
        k.flags.lighting_enabled && i < shining(v.lights).len() ==> {
            let n = shining(v.lights)[i];
            &&& bit8(k.light_active_mask, i)
            &&& v.lights.contains_key(n) && v.lights[n].enabled
            &&& bit8(k.light_directional_mask, i) <==> v.lights[n].light.type_ == 3
            &&& bit8(k.light_spot_mask, i) <==> v.lights[n].light.type_ == 2
        },
        k.flags.lighting_enabled && i >= shining(v.lights).len() ==> !bit8(
            k.light_active_mask,
            i,
        ),
        !k.flags.lighting_enabled ==> !bit8(k.light_active_mask, i),
{
    there_is_a_shining_list(v.lights);
    crate::bits::zero_has_no_bits();
    if k.flags.lighting_enabled && i < shining(v.lights).len() {
        assert(bit8(k.light_active_mask, i) == (i < shining(v.lights).len()));
        assert(shines(v.lights, shining(v.lights)[i]));
    }
}

/// The variant of a draw has the alpha test that is on, the fog of its states, and a flag for
/// each of flat shading, encoding of sRGB and point sprites; everything else is plain.
pub proof fn variants_follow_their_states(v: FfStateView, rs: Seq<u32>, has_rhw: bool)
    ensures
        rs[15] == 0 ==> variant_of(v, rs, has_rhw).alpha_func == 0,
        rs[15] != 0 && rs[25] <= 0xff ==> variant_of(v, rs, has_rhw).alpha_func == rs[25],
        variant_of(v, rs, has_rhw).fog_mode == fog_config(rs, has_rhw).vertex_mode,
        variant_of(v, rs, has_rhw).fog_table_mode == fog_config(rs, has_rhw).table_mode,
        variant_of(v, rs, has_rhw).flags.flat_shade <==> rs[9] == 1,
        variant_of(v, rs, has_rhw).flags.srgb_write <==> rs[194] != 0,
        variant_of(v, rs, has_rhw).flags.point_sprite <==> rs[156] != 0,
        !variant_of(v, rs, has_rhw).flags.sample_mask,
        !variant_of(v, rs, has_rhw).flags.lod_bias,
        variant_of(v, rs, has_rhw).depth_sampler_mask == 0,
        variant_of(v, rs, has_rhw).depth_fetch_mask == 0,
        variant_of(v, rs, has_rhw).volume_sampler_mask == 0,
        variant_of(v, rs, has_rhw).cube_sampler_mask == 0,
{
}

/// Whether a float, given as its bits, is zero of either sign.
pub open spec fn zero_of_either_sign(bits: u32) -> bool {
    bits % 0x8000_0000 == 0
}

/// Fog by pixel measures the homogeneous coordinate unless the projection keeps it at one:
/// its last column is zero but for a one at its end.
pub proof fn table_fog_measures_depth_in_parallel_projections(
    v: FfStateView,
    rs: Seq<u32>,
    has_rhw: bool,
)
    ensures
        ({
            let m = v.transforms[3].m@;
            variant_of(v, rs, has_rhw).flags.fog_source_w <==> fog_config(
                rs,
                has_rhw,
            ).table_mode != 0 && !(zero_of_either_sign(m[3]) && zero_of_either_sign(m[7])
                && zero_of_either_sign(m[11]) && m[15] == 0x3f80_0000)
        }),
{
}

/// The states of a texture stage before any was set: the first stage multiplies its texture
/// with the colour so far and takes the alpha of its texture, the others do nothing; every
/// stage takes its texture first and the colour so far second, reads its own coordinate set
/// and transforms nothing.
pub proof fn a_new_state_is_as_documented(v: FfStateView, stage: int)
    requires
        is_initial(v),
        0 <= stage < 8,
    ensures
        ({
            let s = v.stages[stage];
            &&& s[1] == (if stage == 0 {
                4u32
            } else {
                1
            })
            &&& s[2] == 2 && s[3] == 1
            &&& s[4] == (if stage == 0 {
                2u32
            } else {
                1
            })
            &&& s[5] == 2 && s[6] == 1
            &&& s[11] == stage
            &&& s[24] == 0
            &&& s[26] == 1 && s[27] == 1 && s[28] == 1
        }),
        forall|i: u32| !(#[trigger] v.lights.contains_key(i)),
        forall|i: int|
            0 <= i < 16 ==> #[trigger] v.transforms[3].m@[i] == (if i == 0 || i == 5 || i == 10 || i
                == 15 {
                0x3f80_0000u32
            } else {
                0
            }),
        v.material.diffuse.r == 0 && v.material.power == 0,
{
    assert(v.stages[stage][1] == tss_default(stage, 1));
    assert(v.stages[stage][2] == tss_default(stage, 2));
    assert(v.stages[stage][3] == tss_default(stage, 3));
    assert(v.stages[stage][4] == tss_default(stage, 4));
    assert(v.stages[stage][5] == tss_default(stage, 5));
    assert(v.stages[stage][6] == tss_default(stage, 6));
    assert(v.stages[stage][11] == tss_default(stage, 11));
    assert(v.stages[stage][24] == tss_default(stage, 24));
    assert(v.stages[stage][26] == tss_default(stage, 26));
    assert(v.stages[stage][27] == tss_default(stage, 27));
    assert(v.stages[stage][28] == tss_default(stage, 28));
    assert(v.transforms[3].is_identity());
}

/// The bump mapping values of a stage are its matrix, row by row, then the scale and the
/// offset of its luminance.
pub proof fn bump_values_are_in_their_order(stages: Seq<Seq<u32>>, stage: int)
    requires
        0 <= stage < 8,
    ensures
        bump_word(stages, 8 * stage) == stages[stage][7],
        bump_word(stages, 8 * stage + 1) == stages[stage][8],
        bump_word(stages, 8 * stage + 2) == stages[stage][9],
        bump_word(stages, 8 * stage + 3) == stages[stage][10],
        bump_word(stages, 8 * stage + 4) == stages[stage][22],
        bump_word(stages, 8 * stage + 5) == stages[stage][23],
        bump_word(stages, 8 * stage + 6) == 0,
        bump_word(stages, 8 * stage + 7) == 0,
{
}

/// A block of pixel states holds what combines and samples, one of vertex states what feeds
/// the coordinates, and one of all states everything.
pub proof fn state_blocks_hold_their_stage_states(ty: int)
    ensures
        StateBlockType::All.includes_tss_spec(ty),
        StateBlockType::Pixel.includes_tss_spec(ty) <==> 1 <= ty <= 11 || 22 <= ty <= 24 || 26 <= ty
            <= 28,
        StateBlockType::Vertex.includes_tss_spec(ty) <==> ty == 11 || ty == 24,
{
}

} // verus!
