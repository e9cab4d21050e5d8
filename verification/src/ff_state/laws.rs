//! What holds of the fixed-function state as a whole.

use super::keys::{
    fog_config, is_vs_key, material_source, tells_lights, vertex_blend_count, FogConfig,
};
use super::lights::{light_set, light_switched, shines, shining, there_is_a_shining_list};
use super::sections::{
    bit_end, bits_below, material_rows, row_count, section_element, transform_end, transform_row,
};
use super::snapshot::{restored, SnapshotView};
use super::stages::{stage_set, transforms_coords};
use super::transforms::transformed;
use super::{is_transform, material_set, FfState, FfStateView, LightSlot};
use crate::bits::bit8;
use crate::convert::known::{is_known, CodeKind};
use crate::convert::vertex::{decl_type_dim_spec, FfVsLayout};
use crate::d3d9::{
    StateBlockType, D3DLIGHT9, D3DMATERIAL9, D3DMATRIX, D3DRS_FOGENABLE, D3DRS_FOGTABLEMODE, D3DRS_FOGVERTEXMODE,
    D3DTS_PROJECTION, D3DTS_VIEW,
};
use crate::dxso::ff_vs::{emittable, stage_dim, stage_source};
use crate::dxso::FfVsKey;
use vstd::prelude::*;

verus! {

/// A state has eight texture stages of thirty-three states each.
pub proof fn states_have_eight_stages(s: &FfState)
    ensures
        s@.stages.len() == 8,
        forall|i: int| 0 <= i < 8 ==> (#[trigger] s@.stages[i]).len() == 33,
        forall|k: u32| #[trigger] s@.transforms.contains_key(k) <==> is_transform(k),
{
    s.view_is_complete();
}

/// A transform that was set is the one that is kept, and every other stays as it was.
pub proof fn transforms_are_kept_apart(v: FfStateView, state: u32, m: D3DMATRIX, other: u32)
    requires
        other != state,
    ensures
        transformed(v, state, m).transforms[state] == m,
        transformed(v, state, m).transforms[other] == v.transforms[other],
        transformed(v, state, m).lights == v.lights,
        transformed(v, state, m).stages == v.stages,
        transformed(v, state, m).material == v.material,
{
}

/// The rows of the vertex constants that a transform goes into are marked as changed:
/// a world matrix the products with the view, the view also the lights, the projection
/// and the texture transforms their own rows.
pub proof fn transforms_mark_their_sections(v: FfStateView, state: u32, m: D3DMATRIX)
    requires
        is_transform(state),
    ensures
        ({
            let d = transformed(v, state, m).dirty;
            &&& state == D3DTS_VIEW ==> d.wv && d.palette && d.lights
            &&& state == D3DTS_PROJECTION ==> d.proj
            &&& 16 <= state <= 23 ==> d.tt
            &&& state == 256 ==> d.wv
            &&& 256 <= state ==> d.palette
        }),
{
}

/// A world matrix that was set is in use.
pub proof fn world_matrices_that_were_set_are_in_use(v: FfStateView, state: u32, m: D3DMATRIX)
    requires
        256 <= state <= 511,
    ensures
        state - 256 < transformed(v, state, m).palette_used,
        v.palette_used <= transformed(v, state, m).palette_used,
{
}

/// No write takes a mark away.
pub proof fn marks_stay_until_taken(
    v: FfStateView,
    state: u32,
    m: D3DMATRIX,
    i: u32,
    light: D3DLIGHT9,
    on: bool,
    stage: int,
    ty: int,
    value: u32,
)
    ensures
        v.dirty.union_spec(transformed(v, state, m).dirty) == transformed(v, state, m).dirty,
        v.dirty.union_spec(light_set(v, i, light).dirty) == light_set(v, i, light).dirty,
        v.dirty.union_spec(light_switched(v, i, on).dirty) == light_switched(v, i, on).dirty,
        v.dirty.union_spec(stage_set(v, stage, ty, value).dirty) == stage_set(
            v,
            stage,
            ty,
            value,
        ).dirty,
{
}

/// A write to a light marks the rows of the lights as changed, whichever index it has.
pub proof fn lights_mark_their_section(v: FfStateView, i: u32, light: D3DLIGHT9, on: bool)
    ensures
        light_set(v, i, light).dirty.lights,
        light_switched(v, i, on).dirty.lights,
{
}

/// A write that changes which texture transforms are sent marks their rows as changed.
pub proof fn texture_transforms_mark_their_section(
    v: FfStateView,
    stage: int,
    ty: int,
    value: u32,
    other: int,
)
    requires
        0 <= stage < v.stages.len(),
        0 <= other < v.stages.len(),
        0 <= ty < v.stages[stage].len(),
        v.stages[stage].len() == 33,
        transforms_coords(stage_set(v, stage, ty, value).stages, other) != transforms_coords(
            v.stages,
            other,
        ),
    ensures
        stage_set(v, stage, ty, value).dirty.tt,
{
}

/// Whether every section of the vertex constants that is not marked in `w` has what it had
/// in `v` to be built from: a product with the view the matrix and the view, the lights
/// also the lights, the texture section its rows.
pub open spec fn unmarked_sections_stay(v: FfStateView, w: FfStateView) -> bool {
    let same_view = w.transforms[D3DTS_VIEW] == v.transforms[D3DTS_VIEW];
    &&& !w.dirty.wv ==> same_view && w.transforms[256] == v.transforms[256]
    &&& !w.dirty.proj ==> w.transforms[D3DTS_PROJECTION] == v.transforms[D3DTS_PROJECTION]
    &&& !w.dirty.palette ==> same_view && w.palette_used == v.palette_used && forall|k: u32|
        256 <= k <= 511 ==> #[trigger] w.transforms[k] == v.transforms[k]
    &&& !w.dirty.lights ==> same_view && w.lights == v.lights
    &&& !w.dirty.material ==> w.material == v.material
    &&& !w.dirty.tt ==> forall|r: int|
        0 <= r < 32 ==> #[trigger] transform_row(w, r) == transform_row(v, r)
}

/// Every write that changes a section of the vertex constants marks it: a transform, the
/// material, a light with any index, a state of a texture stage, and going back to a
/// snapshot.
pub proof fn writes_mark_what_they_change(
    v: FfStateView,
    state: u32,
    m: D3DMATRIX,
    material: D3DMATERIAL9,
    i: u32,
    light: D3DLIGHT9,
    on: bool,
    stage: int,
    ty: int,
    value: u32,
    s: SnapshotView,
    block: StateBlockType,
)
    requires
        is_transform(state),
        v.stages.len() == 8,
        forall|n: int| 0 <= n < 8 ==> (#[trigger] v.stages[n]).len() == 33,
        0 <= stage < 8,
        0 <= ty < 33,
    ensures
        unmarked_sections_stay(v, transformed(v, state, m)),
        unmarked_sections_stay(v, material_set(v, material)),
        unmarked_sections_stay(v, light_set(v, i, light)),
        unmarked_sections_stay(v, light_switched(v, i, on)),
        unmarked_sections_stay(v, stage_set(v, stage, ty, value)),
        unmarked_sections_stay(v, restored(v, s, block)),
{
    let w = stage_set(v, stage, ty, value);
    if !w.dirty.tt {
        rows_go_by_switches(v, w);
    }
    let w = restored(v, s, block);
    if !w.dirty.tt {
        rows_go_by_switches(v, w);
    }
    let w = transformed(v, state, m);
    if !w.dirty.tt {
        rows_go_by_switches(v, w);
    }
    rows_go_by_switches(v, material_set(v, material));
    rows_go_by_switches(v, light_set(v, i, light));
    rows_go_by_switches(v, light_switched(v, i, on));
}

proof fn rows_go_by_switches(v: FfStateView, w: FfStateView)
    requires
        forall|k: u32| 16 <= k <= 23 ==> #[trigger] w.transforms[k] == v.transforms[k],
        forall|n: int|
            0 <= n < 8 ==> #[trigger] transforms_coords(w.stages, n) == transforms_coords(
                v.stages,
                n,
            ),
    ensures
        forall|r: int| 0 <= r < 32 ==> #[trigger] transform_row(w, r) == transform_row(v, r),
{
    assert forall|r: int| 0 <= r < 32 implies #[trigger] transform_row(w, r) == transform_row(
        v,
        r,
    ) by {
        let n = r / 4;
        assert(transforms_coords(w.stages, n) == transforms_coords(v.stages, n));
        assert(w.transforms[(16 + n) as u32] == v.transforms[(16 + n) as u32]);
        assert forall|e: int| section_element(w, n, e) == section_element(v, n, e) by {}
    }
}

/// Render states whose value is not known have no effect: such a fog mode gives no fog,
/// such a blend mode blends nothing, and such a source is the material.
pub proof fn unknown_render_states_have_no_effect(
    rs: Seq<u32>,
    has_rhw: bool,
    layout: FfVsLayout,
    indexed: bool,
    value: u32,
)
    ensures
        !is_known(CodeKind::Fog, rs[D3DRS_FOGTABLEMODE as int]) ==> fog_config(rs, has_rhw)
            == (FogConfig { vertex_mode: 0, table_mode: 0 }),
        !has_rhw && rs[D3DRS_FOGTABLEMODE as int] == 0 && !is_known(
            CodeKind::Fog,
            rs[D3DRS_FOGVERTEXMODE as int],
        ) ==> fog_config(rs, has_rhw) == (FogConfig { vertex_mode: 0, table_mode: 0 }),
        !is_known(CodeKind::VertexBlend, value) ==> vertex_blend_count(value, layout, indexed) == 0,
        !is_known(CodeKind::MaterialSource, value) ==> material_source(value) == 0,
{
}

/// A light that was set can be read back, whichever index it has, and switching it
/// does not change it.
pub proof fn lights_read_back(v: FfStateView, i: u32, light: D3DLIGHT9, on: bool)
    ensures
        light_set(v, i, light).lights[i].light == light,
        light_switched(light_set(v, i, light), i, on).lights[i] == (LightSlot {
            light,
            enabled: on,
        }),
        light_set(light_switched(v, i, on), i, light).lights[i] == (LightSlot {
            light,
            enabled: on,
        }),
{
}

/// At most eight lights shine on a vertex, no light that is off is among them, and a
/// light that shines is left out only for eight with lower indices.
pub proof fn at_most_eight_lights_shine(lights: Map<u32, LightSlot>, k: u32)
    ensures
        shining(lights).len() <= 8,
        shining(lights).contains(k) ==> shines(lights, k),
        shines(lights, k) && !shining(lights).contains(k) ==> shining(lights).len() == 8
            && forall|i: int| 0 <= i < 8 ==> #[trigger] shining(lights)[i] < k,
{
    there_is_a_shining_list(lights);
    let l = shining(lights);
    if shines(lights, k) && !l.contains(k) {
        assert forall|i: int| 0 <= i < 8 implies #[trigger] l[i] < k by {
            if i < 7 {
                assert(l[i] < l[7]);
            }
        }
    }
}

/// The mask of active lights in a key has its lowest bits set, one for each light.
pub proof fn active_lights_fill_the_lowest_slots(v: FfStateView, active: u8, d: u8, s: u8)
    requires
        tells_lights(v, active, d, s),
    ensures
        bit_end(active, 8) == shining(v.lights).len(),
{
    there_is_a_shining_list(v.lights);
    lowest_bits(v, active, d, s, 8);
}

proof fn lowest_bits(v: FfStateView, active: u8, d: u8, s: u8, n: int)
    requires
        tells_lights(v, active, d, s),
        shining(v.lights).len() <= 8,
        0 <= n <= 8,
    ensures
        bit_end(active, n) == (if n <= shining(v.lights).len() {
            n
        } else {
            shining(v.lights).len() as int
        }),
    decreases n,
{
    if n > 0 {
        lowest_bits(v, active, d, s, n - 1);
        assert(bit8(active, n - 1) == (n - 1 < shining(v.lights).len()));
    }
}

/// With fog on and a mode that is known, fog is computed in exactly one place.
pub proof fn fog_is_computed_once(rs: Seq<u32>, has_rhw: bool)
    requires
        rs[D3DRS_FOGENABLE as int] != 0,
        rs[D3DRS_FOGTABLEMODE as int] <= 3,
        rs[D3DRS_FOGVERTEXMODE as int] <= 3,
    ensures
        (fog_config(rs, has_rhw).vertex_mode != 0) != (fog_config(rs, has_rhw).table_mode != 0),
{
}

/// Fog that is off stays off in either place.
pub proof fn fog_that_is_off_is_nowhere(rs: Seq<u32>, has_rhw: bool)
    requires
        rs[D3DRS_FOGENABLE as int] == 0,
    ensures
        fog_config(rs, has_rhw).vertex_mode == 0,
        fog_config(rs, has_rhw).table_mode == 0,
{
}

/// Every section that a shader reads lies within the rows that are counted for it.
pub proof fn counted_rows_hold_every_section(v: FfStateView, k: FfVsKey)
    requires
        !k.flags.has_rhw,
        v.palette_used >= 1,
    ensures
        ({
            let n = row_count(v, transform_end(v.stages, 8), k);
            &&& 8 <= n
            &&& k.fog_mode != 0 ==> 9 <= n
            &&& 10 + material_rows(k) <= n
            &&& k.flags.lighting_enabled && k.light_active_mask != 0 ==> 15 + 6 * bit_end(
                k.light_active_mask,
                8,
            ) <= n
            &&& transform_end(v.stages, 8) > 0 ==> 63 + 4 * transform_end(v.stages, 8) <= n
            &&& k.vertex_blend_count > 0 ==> 95 + 4 * v.palette_used <= n
        }),
{
}

/// The sections never overlap: each ends before the next one starts.
pub proof fn sections_do_not_overlap(v: FfStateView, k: FfVsKey)
    ensures
        10 + material_rows(k) <= 15,
        15 + 6 * bit_end(k.light_active_mask, 8) <= 63,
        63 + 4 * transform_end(v.stages, 8) <= 95,
{
    bits_below(k.light_active_mask, 8);
    transform_ends_below(v.stages, 8);
}

proof fn transform_ends_below(stages: Seq<Seq<u32>>, n: int)
    requires
        0 <= n,
    ensures
        0 <= transform_end(stages, n) <= n,
    decreases n,
{
    if n > 0 {
        transform_ends_below(stages, n - 1);
    }
}

/// A key that was made from a state and the layout of a declaration has a shader.
pub proof fn keys_have_shaders(
    v: FfStateView,
    rs: Seq<u32>,
    layout: FfVsLayout,
    mask: u8,
    clip_planes: u8,
    k: FfVsKey,
)
    requires
        is_vs_key(v, rs, layout, mask, clip_planes, k),
        layout.tex_coord_count <= 8,
        forall|i: int| 0 <= i < 8 ==> #[trigger] layout.tex_coord_dims@[i] <= 4,
    ensures
        emittable(k),
{
    assert forall|i: int| 0 <= i < k.tex_coord_count implies stage_dim(k, i) <= 4 by {
        assert(k.tex_coord_dims@[stage_source(k, i)] <= 4);
    }
}

/// A type of a declaration has at most four components.
pub proof fn types_have_at_most_four_components(ty: u8)
    ensures
        decl_type_dim_spec(ty) <= 4,
{
}

/// Where vertices are not lit, no light is in the key.
pub proof fn unlit_keys_have_no_lights(
    v: FfStateView,
    rs: Seq<u32>,
    layout: FfVsLayout,
    mask: u8,
    clip_planes: u8,
    k: FfVsKey,
)
    requires
        is_vs_key(v, rs, layout, mask, clip_planes, k),
        layout.flags.has_rhw,
    ensures
        !k.flags.lighting_enabled,
        k.light_active_mask == 0,
        k.clip_plane_count == 0,
        !k.flags.point_scale,
{
}

} // verus!
