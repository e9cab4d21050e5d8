//! What the state and the render states make of shaders.

use super::lights::{shining, there_is_a_shining_list};
use super::stages::projects_coords;
use super::transforms::is_ortho;
use super::{FfState, FfStateView};
use crate::bits::{bit8, has_bit8, with_bit8, zero_has_no_bits};
use crate::convert::color::{unorm_f32, unorm_to_f32_bits};
use crate::convert::vertex::FfVsLayout;
use crate::d3d9::{
    D3DLIGHT9, D3DLIGHT_DIRECTIONAL, D3DLIGHT_SPOT, D3DRS_ALPHAFUNC, D3DRS_ALPHAREF,
    D3DRS_ALPHATESTENABLE, D3DRS_AMBIENTMATERIALSOURCE, D3DRS_COLORVERTEX,
    D3DRS_DIFFUSEMATERIALSOURCE, D3DRS_EMISSIVEMATERIALSOURCE, D3DRS_FOGENABLE,
    D3DRS_FOGTABLEMODE, D3DRS_FOGVERTEXMODE, D3DRS_INDEXEDVERTEXBLENDENABLE, D3DRS_LIGHTING,
    D3DRS_LOCALVIEWER, D3DRS_NORMALIZENORMALS, D3DRS_POINTSCALEENABLE, D3DRS_POINTSPRITEENABLE,
    D3DRS_SHADEMODE, D3DRS_SPECULARENABLE, D3DRS_SPECULARMATERIALSOURCE, D3DRS_SRGBWRITEENABLE,
    D3DRS_VERTEXBLEND, D3DSHADE_FLAT, D3DTOP_DISABLE, D3DTSS_ALPHAARG1, D3DTSS_ALPHAARG2,
    D3DTSS_ALPHAOP, D3DTSS_COLORARG1, D3DTSS_COLORARG2, D3DTSS_COLOROP, D3DTSS_TEXCOORDINDEX,
    D3DTSS_TEXTURETRANSFORMFLAGS, D3DTS_PROJECTION, D3DVBF_0WEIGHTS, D3DVBF_1WEIGHTS,
    D3DVBF_2WEIGHTS, D3DVBF_3WEIGHTS, RENDER_STATE_COUNT,
};
use crate::dxso::{FfPsKey, FfStage, FfVsFlags, FfVsKey, VariantFlags, VariantKey};
use vstd::prelude::*;

verus! {

/// Where the fog of a draw is computed.
#[derive(Clone, Copy, Debug, PartialEq, Eq, Structural)]
pub struct FogConfig {
    /// By vertex: zero for not at all, up to three for a function of depth, four for the
    /// alpha of the specular colour.
    pub vertex_mode: u8,
    /// By pixel: zero for not at all.
    pub table_mode: u8,
}

/// The fog of a draw. Fog by pixel goes before fog by vertex, and modes that are not
/// known give no fog.
pub open spec fn fog_config(rs: Seq<u32>, has_rhw: bool) -> FogConfig {
    let table = rs[D3DRS_FOGTABLEMODE as int];
    let vertex = rs[D3DRS_FOGVERTEXMODE as int];
    if rs[D3DRS_FOGENABLE as int] == 0 || table > 3 {
        FogConfig { vertex_mode: 0, table_mode: 0 }
    } else if table != 0 {
        FogConfig { vertex_mode: 0, table_mode: table as u8 }
    } else if has_rhw || vertex == 0 {
        FogConfig { vertex_mode: 4, table_mode: 0 }
    } else if vertex <= 3 {
        FogConfig { vertex_mode: vertex as u8, table_mode: 0 }
    } else {
        FogConfig { vertex_mode: 0, table_mode: 0 }
    }
}

fn resolve_fog_config(rs: &[u32; RENDER_STATE_COUNT], has_rhw: bool) -> (r: FogConfig)
    ensures
        r == fog_config(rs@, has_rhw),
{
    let off: FogConfig = FogConfig { vertex_mode: 0, table_mode: 0 };
    let table: u32 = rs[D3DRS_FOGTABLEMODE];
    let vertex: u32 = rs[D3DRS_FOGVERTEXMODE];
    if rs[D3DRS_FOGENABLE] == 0 || table > 3 {
        off
    } else if table != 0 {
        FogConfig { vertex_mode: 0, table_mode: table as u8 }
    } else if has_rhw || vertex == 0 {
        FogConfig { vertex_mode: 4, table_mode: 0 }
    } else if vertex <= 3 {
        FogConfig { vertex_mode: vertex as u8, table_mode: 0 }
    } else {
        off
    }
}

/// How many matrices a vertex is blended from. Nothing is blended when the vertex
/// lacks the weights or the indices that the mode needs.
pub open spec fn vertex_blend_count(mode: u32, layout: FfVsLayout, indexed: bool) -> u8 {
    if indexed && !layout.flags.declared_indices {
        0
    } else if mode == D3DVBF_0WEIGHTS {
        if indexed {
            1
        } else {
            0
        }
    } else if layout.declared_weights_count == 0 {
        0
    } else if mode == D3DVBF_1WEIGHTS {
        2
    } else if mode == D3DVBF_2WEIGHTS {
        3
    } else if mode == D3DVBF_3WEIGHTS {
        4
    } else {
        0
    }
}

fn resolve_vertex_blend_count(mode: u32, layout: &FfVsLayout, indexed: bool) -> (r: u8)
    ensures
        r == vertex_blend_count(mode, *layout, indexed),
{
    if indexed && !layout.declared_indices() {
        0
    } else if mode == D3DVBF_0WEIGHTS {
        if indexed {
            1
        } else {
            0
        }
    } else if layout.declared_weights_count == 0 {
        0
    } else if mode == D3DVBF_1WEIGHTS {
        2
    } else if mode == D3DVBF_2WEIGHTS {
        3
    } else if mode == D3DVBF_3WEIGHTS {
        4
    } else {
        0
    }
}

/// Where a material colour comes from: the material when the source is not known.
pub open spec fn material_source(value: u32) -> u8 {
    if value > 2 {
        0
    } else {
        value as u8
    }
}

fn clamp_material_source(value: u32) -> (r: u8)
    ensures
        r == material_source(value),
{
    if value > 2 {
        0
    } else {
        value as u8
    }
}

/// Whether vertices are lit: lighting is on and they are not transformed already.
pub open spec fn is_lit(rs: Seq<u32>, layout: FfVsLayout) -> bool {
    !layout.flags.has_rhw && rs[D3DRS_LIGHTING as int] != 0
}

/// The flags of a vertex shader. Flags that would make no difference stay off.
pub open spec fn vs_flags(rs: Seq<u32>, layout: FfVsLayout) -> FfVsFlags {
    let specular = rs[D3DRS_SPECULARENABLE as int] != 0;
    FfVsFlags {
        has_normal: layout.flags.has_normal,
        has_color0: layout.flags.has_color0,
        has_color1: layout.flags.has_color1,
        lighting_enabled: is_lit(rs, layout),
        has_rhw: layout.flags.has_rhw,
        color_vertex: rs[D3DRS_COLORVERTEX as int] != 0,
        specular_enable: specular,
        vertex_blend_indexed: rs[D3DRS_INDEXEDVERTEXBLENDENABLE as int] != 0,
        declared_indices: layout.flags.declared_indices,
        local_viewer: is_lit(rs, layout) && specular && rs[D3DRS_LOCALVIEWER as int] != 0,
        normalize_normals: is_lit(rs, layout) && layout.flags.has_normal
            && rs[D3DRS_NORMALIZENORMALS as int] != 0,
        has_psize: layout.flags.has_psize,
        point_scale: !layout.flags.has_rhw && rs[D3DRS_POINTSCALEENABLE as int] != 0,
    }
}

fn build_vs_flags(rs: &[u32; RENDER_STATE_COUNT], layout: &FfVsLayout, lit: bool) -> (r: FfVsFlags)
    requires
        lit == is_lit(rs@, *layout),
    ensures
        r == vs_flags(rs@, *layout),
{
    let specular: bool = rs[D3DRS_SPECULARENABLE] != 0;
    FfVsFlags {
        has_normal: layout.has_normal(),
        has_color0: layout.has_color0(),
        has_color1: layout.has_color1(),
        lighting_enabled: lit,
        has_rhw: layout.has_rhw(),
        color_vertex: rs[D3DRS_COLORVERTEX] != 0,
        specular_enable: specular,
        vertex_blend_indexed: rs[D3DRS_INDEXEDVERTEXBLENDENABLE] != 0,
        declared_indices: layout.declared_indices(),
        local_viewer: lit && specular && rs[D3DRS_LOCALVIEWER] != 0,
        normalize_normals: lit && layout.has_normal() && rs[D3DRS_NORMALIZENORMALS] != 0,
        has_psize: layout.has_psize(),
        point_scale: !layout.has_rhw() && rs[D3DRS_POINTSCALEENABLE] != 0,
    }
}

/// How a texture stage transforms its coordinates: the number of components when it is
/// two to four, and sixteen more when the coordinates are divided by the last one.
pub open spec fn stage_transform(flags: u32) -> u8 {
    let count = if 2 <= flags <= 4 {
        flags as int
    } else if 258 <= flags <= 260 {
        flags - 256
    } else {
        0
    };
    (count + (if flags / 256 % 2 == 1 {
        16int
    } else {
        0
    })) as u8
}

fn pack_stage_transform(flags: u32) -> (r: u8)
    ensures
        r == stage_transform(flags),
{
    let count: u32 = if 2 <= flags && flags <= 4 {
        flags
    } else if 258 <= flags && flags <= 260 {
        flags - 256
    } else {
        0
    };
    (count + (if flags / 256 % 2 == 1 {
        16u32
    } else {
        0
    })) as u8
}

/// Whether a stage and all before it are switched on.
pub open spec fn is_chained(stages: Seq<Seq<u32>>, i: int) -> bool {
    forall|j: int| 0 <= j <= i ==> #[trigger] stages[j][D3DTSS_COLOROP as int] != D3DTOP_DISABLE
}

/// One more than the last of the first `n` stages that is switched on and has a texture.
pub open spec fn textured_end(stages: Seq<Seq<u32>>, mask: u8, n: int) -> int
    decreases n,
{
    if n <= 0 {
        0
    } else if is_chained(stages, n - 1) && bit8(mask, n - 1) {
        n
    } else {
        textured_end(stages, mask, n - 1)
    }
}

/// How many stages get a coordinate: as many as the vertex has sets, or more if a
/// texture asks for it, eight at the most.
pub open spec fn coord_count(stages: Seq<Seq<u32>>, mask: u8, sets: u8) -> int {
    let end = textured_end(stages, mask, 8);
    let wanted = if end > sets {
        end
    } else {
        sets as int
    };
    if wanted < 8 {
        wanted
    } else {
        8
    }
}

/// Whether masks tell how many lights shine and of which kind each is.
pub open spec fn tells_lights(v: FfStateView, active: u8, directional: u8, spot: u8) -> bool {
    let s = shining(v.lights);
    forall|i: int|
        #![trigger bit8(active, i)]
        0 <= i < 8 ==> {
            &&& bit8(active, i) == (i < s.len())
            &&& bit8(directional, i) == (i < s.len() && v.lights[s[i]].light.type_
                == D3DLIGHT_DIRECTIONAL)
            &&& bit8(spot, i) == (i < s.len() && v.lights[s[i]].light.type_ == D3DLIGHT_SPOT)
        }
}

/// What a key of a vertex shader says of the state it was made from.
pub open spec fn is_vs_key(
    v: FfStateView,
    rs: Seq<u32>,
    layout: FfVsLayout,
    mask: u8,
    clip_planes: u8,
    k: FfVsKey,
) -> bool {
    &&& k.flags == vs_flags(rs, layout)
    &&& k.input_tex_coord_count == layout.tex_coord_count
    &&& k.tex_coord_count == coord_count(v.stages, mask, layout.tex_coord_count)
    &&& is_lit(rs, layout) ==> tells_lights(
        v,
        k.light_active_mask,
        k.light_directional_mask,
        k.light_spot_mask,
    )
    &&& !is_lit(rs, layout) ==> k.light_active_mask == 0 && k.light_directional_mask == 0
        && k.light_spot_mask == 0
    &&& k.diffuse_source == material_source(rs[D3DRS_DIFFUSEMATERIALSOURCE as int])
    &&& k.ambient_source == material_source(rs[D3DRS_AMBIENTMATERIALSOURCE as int])
    &&& k.specular_source == material_source(rs[D3DRS_SPECULARMATERIALSOURCE as int])
    &&& k.emissive_source == material_source(rs[D3DRS_EMISSIVEMATERIALSOURCE as int])
    &&& k.fog_mode == fog_config(rs, layout.flags.has_rhw).vertex_mode
    &&& forall|i: int|
        0 <= i < 8 ==> #[trigger] k.tci_modes@[i] == v.stages[i][D3DTSS_TEXCOORDINDEX as int]
            / 0x1_0000 % 0x100
    &&& forall|i: int|
        0 <= i < 8 ==> #[trigger] k.tci_coord_indices@[i]
            == v.stages[i][D3DTSS_TEXCOORDINDEX as int] % 0x100
    &&& forall|i: int|
        0 <= i < 8 ==> #[trigger] k.tt_flags@[i] == stage_transform(
            v.stages[i][D3DTSS_TEXTURETRANSFORMFLAGS as int],
        )
    &&& k.tex_coord_dims == layout.tex_coord_dims
    &&& k.vertex_blend_count == vertex_blend_count(
        rs[D3DRS_VERTEXBLEND as int],
        layout,
        rs[D3DRS_INDEXEDVERTEXBLENDENABLE as int] != 0,
    )
    &&& k.declared_weights_count == layout.declared_weights_count
    &&& k.clip_plane_count == (if layout.flags.has_rhw {
        0
    } else {
        clip_planes
    })
}

/// Whether the operations and arguments of every stage fit a key.
pub open spec fn stages_fit(stages: Seq<Seq<u32>>) -> bool {
    forall|i: int, t: int|
        0 <= i < 8 && D3DTSS_COLOROP <= t <= D3DTSS_ALPHAARG2 ==> #[trigger] stages[i][t] <= 0xff
}

/// Stage `i` in a key of a pixel shader.
pub open spec fn ps_stage(stages: Seq<Seq<u32>>, mask: u8, i: int) -> FfStage {
    FfStage {
        color_op: stages[i][D3DTSS_COLOROP as int] as u8,
        color_arg1: stages[i][D3DTSS_COLORARG1 as int] as u8,
        color_arg2: stages[i][D3DTSS_COLORARG2 as int] as u8,
        alpha_op: stages[i][D3DTSS_ALPHAOP as int] as u8,
        alpha_arg1: stages[i][D3DTSS_ALPHAARG1 as int] as u8,
        alpha_arg2: stages[i][D3DTSS_ALPHAARG2 as int] as u8,
        has_texture: bit8(mask, i),
    }
}

/// What a key of a pixel shader says of the state it was made from.
pub open spec fn is_ps_key(v: FfStateView, rs: Seq<u32>, mask: u8, k: FfPsKey) -> bool {
    &&& forall|i: int| 0 <= i < 8 ==> #[trigger] k.stages@[i] == ps_stage(v.stages, mask, i)
    &&& k.specular_add == (rs[D3DRS_SPECULARENABLE as int] != 0)
    &&& forall|i: int|
        0 <= i < 8 ==> #[trigger] bit8(k.tt_projected_mask, i) == projects_coords(v.stages, i)
}

/// The variant that the render states ask for.
pub open spec fn variant_of(v: FfStateView, rs: Seq<u32>, has_rhw: bool) -> VariantKey {
    let fog = fog_config(rs, has_rhw);
    VariantKey {
        alpha_func: if rs[D3DRS_ALPHATESTENABLE as int] != 0 {
            rs[D3DRS_ALPHAFUNC as int] as u8
        } else {
            0
        },
        fog_mode: fog.vertex_mode,
        fog_table_mode: fog.table_mode,
        flags: VariantFlags {
            fog_source_w: fog.table_mode != 0 && !is_ortho(v.transforms[D3DTS_PROJECTION].m@),
            flat_shade: rs[D3DRS_SHADEMODE as int] == D3DSHADE_FLAT,
            srgb_write: rs[D3DRS_SRGBWRITEENABLE as int] != 0,
            point_sprite: rs[D3DRS_POINTSPRITEENABLE as int] != 0,
            ..VariantFlags::none_spec()
        },
        ..VariantKey::plain_spec()
    }
}

struct LightMasks {
    active: u8,
    directional: u8,
    spot: u8,
}

impl FfState {
    fn light_masks(&self) -> (r: LightMasks)
        requires
            self.wf(),
        ensures
            tells_lights(self@, r.active, r.directional, r.spot),
    {
        let lights: Vec<D3DLIGHT9> = self.active_lights();
        let ghost s = shining(self@.lights);
        proof {
            there_is_a_shining_list(self@.lights);
        }
        let mut active: u8 = 0;
        let mut directional: u8 = 0;
        let mut spot: u8 = 0;
        let mut i: u32 = 0;
        proof {
            zero_has_no_bits();
        }
        while (i as usize) < lights.len()
            invariant
                s == shining(self@.lights),
                lights@.len() == s.len(),
                s.len() <= 8,
                lights@ == s.map_values(|i: u32| self@.lights[i].light),
                i <= s.len(),
                forall|j: int| 0 <= j < 8 ==> #[trigger] bit8(active, j) == (j < i),
                forall|j: int|
                    0 <= j < 8 ==> #[trigger] bit8(directional, j) == (j < i
                        && self@.lights[s[j]].light.type_ == D3DLIGHT_DIRECTIONAL),
                forall|j: int|
                    0 <= j < 8 ==> #[trigger] bit8(spot, j) == (j < i
                        && self@.lights[s[j]].light.type_ == D3DLIGHT_SPOT),
            decreases s.len() - i,
        {
            let type_: u32 = lights[i as usize].type_;
            assert(type_ == self@.lights[s[i as int]].light.type_);
            active = with_bit8(active, i);
            if type_ == D3DLIGHT_DIRECTIONAL {
                directional = with_bit8(directional, i);
            } else if type_ == D3DLIGHT_SPOT {
                spot = with_bit8(spot, i);
            }
            i += 1;
        }
        LightMasks { active, directional, spot }
    }

    fn textured_stages(&self, mask: u8) -> (r: u32)
        ensures
            r == textured_end(self@.stages, mask, 8),
            r <= 8,
    {
        let mut end: u32 = 0;
        let mut chained: bool = true;
        let mut i: u32 = 0;
        while i < 8
            invariant
                i <= 8,
                end <= i,
                end == textured_end(self@.stages, mask, i as int),
                chained == is_chained(self@.stages, i - 1),
            decreases 8 - i,
        {
            let off: bool = self.texture_stage_states[i as usize][D3DTSS_COLOROP as usize]
                == D3DTOP_DISABLE;
            assert(off == (self@.stages[i as int][D3DTSS_COLOROP as int] == D3DTOP_DISABLE));
            proof {
                if chained && !off {
                    assert(is_chained(self@.stages, i as int));
                }
                if is_chained(self@.stages, i as int) {
                    assert(is_chained(self@.stages, i - 1));
                }
            }
            chained = chained && !off;
            if chained && has_bit8(mask, i) {
                end = i + 1;
            }
            i += 1;
        }
        end
    }

    /// The key of the vertex shader for the state, the render states and a vertex layout.
    /// `bound_texture_mask` has a bit for each stage with a texture, and `clip_planes` is
    /// how many clip planes are on.
    pub fn build_vs_key(
        &self,
        render_states: &[u32; RENDER_STATE_COUNT],
        layout: FfVsLayout,
        bound_texture_mask: u8,
        clip_planes: u8,
    ) -> (r: FfVsKey)
        requires
            self.wf(),
        ensures
            is_vs_key(self@, render_states@, layout, bound_texture_mask, clip_planes, r),
    {
        let lit: bool = !layout.has_rhw() && render_states[D3DRS_LIGHTING] != 0;
        let masks: LightMasks = if lit {
            self.light_masks()
        } else {
            LightMasks { active: 0, directional: 0, spot: 0 }
        };
        let mut tci_modes: [u8; 8] = [0; 8];
        let mut tci_coord_indices: [u8; 8] = [0; 8];
        let mut tt_flags: [u8; 8] = [0; 8];
        let mut i: usize = 0;
        while i < 8
            invariant
                i <= 8,
                forall|j: int|
                    0 <= j < i ==> #[trigger] tci_modes@[j]
                        == self@.stages[j][D3DTSS_TEXCOORDINDEX as int] / 0x1_0000 % 0x100,
                forall|j: int|
                    0 <= j < i ==> #[trigger] tci_coord_indices@[j]
                        == self@.stages[j][D3DTSS_TEXCOORDINDEX as int] % 0x100,
                forall|j: int|
                    0 <= j < i ==> #[trigger] tt_flags@[j] == stage_transform(
                        self@.stages[j][D3DTSS_TEXTURETRANSFORMFLAGS as int],
                    ),
            decreases 8 - i,
        {
            let raw: u32 = self.texture_stage_states[i][D3DTSS_TEXCOORDINDEX as usize];
            tci_modes[i] = (raw / 0x1_0000 % 0x100) as u8;
            tci_coord_indices[i] = (raw % 0x100) as u8;
            tt_flags[i] = pack_stage_transform(
                self.texture_stage_states[i][D3DTSS_TEXTURETRANSFORMFLAGS as usize],
            );
            i += 1;
        }
        let end: u32 = self.textured_stages(bound_texture_mask);
        let wanted: u32 = if end > layout.tex_coord_count as u32 {
            end
        } else {
            layout.tex_coord_count as u32
        };
        let tex_coord_count: u8 = if wanted < 8 {
            wanted as u8
        } else {
            8
        };
        FfVsKey {
            flags: build_vs_flags(render_states, &layout, lit),
            input_tex_coord_count: layout.tex_coord_count,
            tex_coord_count,
            light_active_mask: masks.active,
            light_directional_mask: masks.directional,
            light_spot_mask: masks.spot,
            diffuse_source: clamp_material_source(render_states[D3DRS_DIFFUSEMATERIALSOURCE]),
            ambient_source: clamp_material_source(render_states[D3DRS_AMBIENTMATERIALSOURCE]),
            specular_source: clamp_material_source(render_states[D3DRS_SPECULARMATERIALSOURCE]),
            emissive_source: clamp_material_source(render_states[D3DRS_EMISSIVEMATERIALSOURCE]),
            fog_mode: resolve_fog_config(render_states, layout.has_rhw()).vertex_mode,
            tci_modes,
            tci_coord_indices,
            tex_coord_dims: layout.tex_coord_dims,
            tt_flags,
            vertex_blend_count: resolve_vertex_blend_count(
                render_states[D3DRS_VERTEXBLEND],
                &layout,
                render_states[D3DRS_INDEXEDVERTEXBLENDENABLE] != 0,
            ),
            declared_weights_count: layout.declared_weights_count,
            clip_plane_count: if layout.has_rhw() {
                0
            } else {
                clip_planes
            },
        }
    }

    fn ps_key_stage(&self, mask: u8, i: usize) -> (r: FfStage)
        requires
            i < 8,
            stages_fit(self@.stages),
        ensures
            r == ps_stage(self@.stages, mask, i as int),
    {
        let s: &[u32; 33] = &self.texture_stage_states[i];
        assert(s@ == self@.stages[i as int]);
        FfStage {
            color_op: s[D3DTSS_COLOROP as usize] as u8,
            color_arg1: s[D3DTSS_COLORARG1 as usize] as u8,
            color_arg2: s[D3DTSS_COLORARG2 as usize] as u8,
            alpha_op: s[D3DTSS_ALPHAOP as usize] as u8,
            alpha_arg1: s[D3DTSS_ALPHAARG1 as usize] as u8,
            alpha_arg2: s[D3DTSS_ALPHAARG2 as usize] as u8,
            has_texture: has_bit8(mask, i as u32),
        }
    }

    /// The key of the pixel shader for the state and the render states.
    /// `bound_texture_mask` has a bit for each stage with a texture.
    pub fn build_ps_key(
        &self,
        render_states: &[u32; RENDER_STATE_COUNT],
        bound_texture_mask: u8,
    ) -> (r: FfPsKey)
        requires
            stages_fit(self@.stages),
        ensures
            is_ps_key(self@, render_states@, bound_texture_mask, r),
    {
        let mut stages: [FfStage; 8] = [FfStage::default(); 8];
        let mut i: usize = 0;
        while i < 8
            invariant
                i <= 8,
                stages_fit(self@.stages),
                forall|j: int|
                    0 <= j < i ==> #[trigger] stages@[j] == ps_stage(
                        self@.stages,
                        bound_texture_mask,
                        j,
                    ),
            decreases 8 - i,
        {
            stages[i] = self.ps_key_stage(bound_texture_mask, i);
            i += 1;
        }
        FfPsKey {
            stages,
            specular_add: render_states[D3DRS_SPECULARENABLE] != 0,
            tt_projected_mask: self.tt_projected_mask(),
        }
    }

    /// The variant that the render states ask for.
    pub fn variant_key(&self, render_states: &[u32; RENDER_STATE_COUNT], has_rhw: bool) -> (r:
        VariantKey)
        requires
            render_states@[D3DRS_ALPHATESTENABLE as int] != 0
                ==> render_states@[D3DRS_ALPHAFUNC as int] <= 0xff,
        ensures
            r == variant_of(self@, render_states@, has_rhw),
    {
        let fog: FogConfig = resolve_fog_config(render_states, has_rhw);
        let mut r: VariantKey = VariantKey::plain();
        r.flags.fog_source_w = fog.table_mode != 0 && !self.projection_is_ortho();
        r.flags.flat_shade = render_states[D3DRS_SHADEMODE] == D3DSHADE_FLAT;
        r.flags.srgb_write = render_states[D3DRS_SRGBWRITEENABLE] != 0;
        r.flags.point_sprite = render_states[D3DRS_POINTSPRITEENABLE] != 0;
        if render_states[D3DRS_ALPHATESTENABLE] != 0 {
            r.alpha_func = render_states[D3DRS_ALPHAFUNC] as u8;
        }
        r.fog_mode = fog.vertex_mode;
        r.fog_table_mode = fog.table_mode;
        r
    }

    /// The reference of the alpha test as a float from zero to one, given as its bits.
    pub fn alpha_ref(&self, render_states: &[u32; RENDER_STATE_COUNT]) -> (r: u32)
        ensures
            r == unorm_f32((render_states@[D3DRS_ALPHAREF as int] % 0x100) as u8),
    {
        unorm_to_f32_bits((render_states[D3DRS_ALPHAREF] % 0x100) as u8)
    }
}

} // verus!
