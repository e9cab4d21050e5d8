//! The keys that fixed-function shaders are made from.

use crate::d3d9::{
    D3DDECLUSAGE_BLENDINDICES, D3DDECLUSAGE_BLENDWEIGHT, D3DDECLUSAGE_COLOR, D3DDECLUSAGE_NORMAL,
    D3DDECLUSAGE_POSITION, D3DDECLUSAGE_POSITIONT, D3DDECLUSAGE_PSIZE, D3DDECLUSAGE_TEXCOORD,
    D3DTA_SELECTMASK, D3DTA_TFACTOR, D3DTOP_BLENDFACTORALPHA, D3DTOP_DISABLE,
};
use crate::bits::{bit16, with_bit16, zero_has_no_bits};
use vstd::prelude::*;

verus! {

/// Yes-or-no properties of the fixed-function vertex state.
#[derive(Clone, Copy, Debug, PartialEq, Eq, Hash, Structural)]
pub struct FfVsFlags {
    /// The vertex has a normal.
    pub has_normal: bool,
    /// The vertex has a diffuse colour.
    pub has_color0: bool,
    /// The vertex has a specular colour.
    pub has_color1: bool,
    /// Lighting is on; never for vertices that are already transformed.
    pub lighting_enabled: bool,
    /// The vertex is already transformed to the screen.
    pub has_rhw: bool,
    /// Vertex colours may stand in for material colours.
    pub color_vertex: bool,
    /// Lights have specular highlights.
    pub specular_enable: bool,
    /// Vertices say which matrices they are blended from.
    pub vertex_blend_indexed: bool,
    /// The vertex has blend indices.
    pub declared_indices: bool,
    /// Highlights depend on where the eye is.
    pub local_viewer: bool,
    /// Normals are made unit length after the transform.
    pub normalize_normals: bool,
    /// The vertex has a point size.
    pub has_psize: bool,
    /// Points shrink with distance.
    pub point_scale: bool,
}

impl FfVsFlags {
    /// No property set.
    pub open spec fn none_spec() -> FfVsFlags {
        FfVsFlags {
            has_normal: false,
            has_color0: false,
            has_color1: false,
            lighting_enabled: false,
            has_rhw: false,
            color_vertex: false,
            specular_enable: false,
            vertex_blend_indexed: false,
            declared_indices: false,
            local_viewer: false,
            normalize_normals: false,
            has_psize: false,
            point_scale: false,
        }
    }

    /// No property set.
    pub fn none() -> (r: FfVsFlags)
        ensures
            r == Self::none_spec(),
    {
        FfVsFlags {
            has_normal: false,
            has_color0: false,
            has_color1: false,
            lighting_enabled: false,
            has_rhw: false,
            color_vertex: false,
            specular_enable: false,
            vertex_blend_indexed: false,
            declared_indices: false,
            local_viewer: false,
            normalize_normals: false,
            has_psize: false,
            point_scale: false,
        }
    }
}

/// The fixed-function vertex state that decides the text of a vertex shader.
#[derive(Clone, Copy, Debug, PartialEq, Eq, Hash)]
pub struct FfVsKey {
    pub flags: FfVsFlags,
    /// How many texture coordinate sets the vertex has.
    pub input_tex_coord_count: u8,
    /// How many stages get a texture coordinate.
    pub tex_coord_count: u8,
    /// Bit per light slot: the light shines.
    pub light_active_mask: u8,
    /// Bit per light slot: the light is directional.
    pub light_directional_mask: u8,
    /// Bit per light slot: the light is a spot.
    pub light_spot_mask: u8,
    /// Where a material colour comes from: 0 the material, 1 diffuse, 2 specular.
    pub diffuse_source: u8,
    pub ambient_source: u8,
    pub specular_source: u8,
    pub emissive_source: u8,
    /// Vertex fog: 0 off, 1 exponential, 2 squared, 3 linear, 4 from the specular alpha.
    pub fog_mode: u8,
    /// Per stage: where its coordinate comes from.
    pub tci_modes: [u8; 8],
    /// Per stage: which coordinate set it reads.
    pub tci_coord_indices: [u8; 8],
    /// Per coordinate set: how many components it has.
    pub tex_coord_dims: [u8; 8],
    /// Per stage: component count in the low bits, projection in bit 4.
    pub tt_flags: [u8; 8],
    /// How many matrices a vertex is blended from, zero for no blending.
    pub vertex_blend_count: u8,
    pub declared_weights_count: u8,
    pub clip_plane_count: u8,
}

impl FfVsKey {
    pub fn has_normal(&self) -> (r: bool)
        ensures
            r == self.flags.has_normal,
    {
        self.flags.has_normal
    }

    pub fn has_color0(&self) -> (r: bool)
        ensures
            r == self.flags.has_color0,
    {
        self.flags.has_color0
    }

    pub fn has_color1(&self) -> (r: bool)
        ensures
            r == self.flags.has_color1,
    {
        self.flags.has_color1
    }

    pub fn lighting_enabled(&self) -> (r: bool)
        ensures
            r == self.flags.lighting_enabled,
    {
        self.flags.lighting_enabled
    }

    pub fn has_rhw(&self) -> (r: bool)
        ensures
            r == self.flags.has_rhw,
    {
        self.flags.has_rhw
    }

    pub fn has_psize(&self) -> (r: bool)
        ensures
            r == self.flags.has_psize,
    {
        self.flags.has_psize
    }

    pub fn point_scale(&self) -> (r: bool)
        ensures
            r == self.flags.point_scale,
    {
        self.flags.point_scale
    }

    pub fn color_vertex(&self) -> (r: bool)
        ensures
            r == self.flags.color_vertex,
    {
        self.flags.color_vertex
    }

    pub fn specular_enable(&self) -> (r: bool)
        ensures
            r == self.flags.specular_enable,
    {
        self.flags.specular_enable
    }

    pub fn local_viewer(&self) -> (r: bool)
        ensures
            r == self.flags.local_viewer,
    {
        self.flags.local_viewer
    }

    pub fn normalize_normals(&self) -> (r: bool)
        ensures
            r == self.flags.normalize_normals,
    {
        self.flags.normalize_normals
    }

    pub fn vertex_blend_indexed(&self) -> (r: bool)
        ensures
            r == self.flags.vertex_blend_indexed,
    {
        self.flags.vertex_blend_indexed
    }

    pub fn declared_indices(&self) -> (r: bool)
        ensures
            r == self.flags.declared_indices,
    {
        self.flags.declared_indices
    }
}

/// The component count in texture transform flags.
pub fn tt_count(flags: u8) -> (r: u8)
    ensures
        r == flags & 0x07,
{
    flags & 0x07
}

/// Whether texture transform flags ask for projection.
pub fn tt_projected(flags: u8) -> (r: bool)
    ensures
        r == (flags & 0x10 != 0),
{
    (flags & 0x10) != 0
}

/// One texture stage: how colour and alpha are combined, and whether a texture is bound.
#[derive(Clone, Copy, Debug, PartialEq, Eq, Hash, Structural)]
pub struct FfStage {
    pub color_op: u8,
    pub color_arg1: u8,
    pub color_arg2: u8,
    pub alpha_op: u8,
    pub alpha_arg1: u8,
    pub alpha_arg2: u8,
    pub has_texture: bool,
}

impl FfStage {
    /// Whether the stage, and with it every later one, is switched off.
    pub open spec fn is_disabled_spec(self) -> bool {
        self.color_op == D3DTOP_DISABLE
    }

    pub fn is_disabled(&self) -> (r: bool)
        ensures
            r == self.is_disabled_spec(),
    {
        self.color_op as u32 == D3DTOP_DISABLE
    }

    /// Whether an argument selects the texture factor.
    pub open spec fn selects_factor(arg: u8) -> bool {
        arg as u32 & D3DTA_SELECTMASK == D3DTA_TFACTOR
    }

    /// Whether the stage mentions the texture factor.
    pub open spec fn mentions_factor(self) -> bool {
        self.color_op == D3DTOP_BLENDFACTORALPHA || self.alpha_op == D3DTOP_BLENDFACTORALPHA
            || Self::selects_factor(self.color_arg1) || Self::selects_factor(self.color_arg2)
            || Self::selects_factor(self.alpha_arg1) || Self::selects_factor(self.alpha_arg2)
    }

    fn arg_is_factor(arg: u8) -> (r: bool)
        ensures
            r == Self::selects_factor(arg),
    {
        arg as u32 & D3DTA_SELECTMASK == D3DTA_TFACTOR
    }
}

impl Default for FfStage {
    fn default() -> (r: FfStage)
        ensures
            r == (FfStage {
                color_op: 0,
                color_arg1: 0,
                color_arg2: 0,
                alpha_op: 0,
                alpha_arg1: 0,
                alpha_arg2: 0,
                has_texture: false,
            }),
    {
        FfStage {
            color_op: 0,
            color_arg1: 0,
            color_arg2: 0,
            alpha_op: 0,
            alpha_arg1: 0,
            alpha_arg2: 0,
            has_texture: false,
        }
    }
}

/// The fixed-function pixel state that decides the text of a pixel shader.
#[derive(Clone, Copy, Debug, PartialEq, Eq, Hash)]
pub struct FfPsKey {
    pub stages: [FfStage; 8],
    /// The specular colour is added at the end.
    pub specular_add: bool,
    /// Bit per stage: the coordinate is divided by its last component.
    pub tt_projected_mask: u8,
}

/// How many stages come before the first disabled one, counting from stage `i`.
pub open spec fn active_from(stages: Seq<FfStage>, i: int) -> int
    decreases stages.len() - i,
{
    if i < 0 || i >= stages.len() || stages[i].is_disabled_spec() {
        i
    } else {
        active_from(stages, i + 1)
    }
}

/// How many stages come before the first disabled one.
pub open spec fn active_stages(stages: Seq<FfStage>) -> int {
    active_from(stages, 0)
}

/// A stage is active exactly when neither it nor any before it is disabled.
pub proof fn active_stages_are_the_leading_ones(stages: Seq<FfStage>, i: int)
    requires
        0 <= i < stages.len(),
    ensures
        0 <= active_stages(stages) <= stages.len(),
        i < active_stages(stages) <==> forall|j: int|
            0 <= j <= i ==> !(#[trigger] stages[j]).is_disabled_spec(),
{
    lemma_active_from(stages, 0);
}

proof fn lemma_active_from(stages: Seq<FfStage>, i: int)
    requires
        0 <= i <= stages.len(),
    ensures
        i <= active_from(stages, i) <= stages.len(),
        forall|j: int|
            i <= j < active_from(stages, i) ==> !(#[trigger] stages[j]).is_disabled_spec(),
        active_from(stages, i) < stages.len() ==> stages[active_from(
            stages,
            i,
        )].is_disabled_spec(),
    decreases stages.len() - i,
{
    if i < stages.len() && !stages[i].is_disabled_spec() {
        lemma_active_from(stages, i + 1);
    }
}

/// How many stages come before the first disabled one.
pub fn active_stage_count(stages: &[FfStage; 8]) -> (r: u32)
    ensures
        r == active_stages(stages@),
        r <= 8,
{
    let mut i: usize = 0;
    while i < 8
        invariant
            i <= 8,
            active_stages(stages@) == active_from(stages@, i as int),
        decreases 8 - i,
    {
        if stages[i].is_disabled() {
            return i as u32;
        }
        i += 1;
    }
    8
}

impl FfPsKey {
    /// Whether the shader samples a texture in stage `i`: the stage is active and has one.
    pub open spec fn samples(self, i: int) -> bool {
        i < active_stages(self.stages@) && self.stages@[i].has_texture
    }

    /// The stages whose texture the shader samples, as a mask.
    pub fn sampled_stage_mask(&self) -> (r: u16)
        ensures
            forall|i: int| 0 <= i < 16 ==> #[trigger] bit16(r, i) == (i < 8 && self.samples(i)),
    {
        let n: u32 = active_stage_count(&self.stages);
        let mut mask: u16 = 0;
        let mut i: u32 = 0;
        proof {
            zero_has_no_bits();
        }
        while i < n
            invariant
                i <= n <= 8,
                n == active_stages(self.stages@),
                forall|j: int| 0 <= j < 16 ==> #[trigger] bit16(mask, j) == (j < i && self.samples(j)),
            decreases n - i,
        {
            if self.stages[i as usize].has_texture {
                mask = with_bit16(mask, i);
            }
            i += 1;
        }
        mask
    }

    /// Whether an active stage mentions the texture factor.
    pub fn reads_texture_factor(&self) -> (r: bool)
        ensures
            r == (exists|i: int|
                0 <= i < active_stages(self.stages@) && (
                #[trigger] self.stages@[i]).mentions_factor()),
    {
        let n: u32 = active_stage_count(&self.stages);
        let mut i: u32 = 0;
        while i < n
            invariant
                i <= n <= 8,
                n == active_stages(self.stages@),
                forall|j: int| 0 <= j < i ==> !(#[trigger] self.stages@[j]).mentions_factor(),
            decreases n - i,
        {
            let s: FfStage = self.stages[i as usize];
            if s.color_op as u32 == D3DTOP_BLENDFACTORALPHA || s.alpha_op as u32
                == D3DTOP_BLENDFACTORALPHA || FfStage::arg_is_factor(s.color_arg1)
                || FfStage::arg_is_factor(s.color_arg2) || FfStage::arg_is_factor(s.alpha_arg1)
                || FfStage::arg_is_factor(s.alpha_arg2) {
                assert(self.stages@[i as int].mentions_factor());
                return true;
            }
            i += 1;
        }
        false
    }
}

/// The attribute that a vertex element feeds, if the shader reads it.
pub open spec fn attr_index(usage: u8, usage_index: u8) -> Option<u16> {
    if (usage == D3DDECLUSAGE_POSITION || usage == D3DDECLUSAGE_POSITIONT) && usage_index == 0 {
        Some(0u16)
    } else if usage == D3DDECLUSAGE_NORMAL && usage_index == 0 {
        Some(1u16)
    } else if usage == D3DDECLUSAGE_COLOR && usage_index < 2 {
        Some((2 + usage_index) as u16)
    } else if usage == D3DDECLUSAGE_TEXCOORD && usage_index < 8 {
        Some((4 + usage_index) as u16)
    } else if usage == D3DDECLUSAGE_BLENDWEIGHT && usage_index == 0 {
        Some(12u16)
    } else if usage == D3DDECLUSAGE_BLENDINDICES && usage_index == 0 {
        Some(13u16)
    } else if usage == D3DDECLUSAGE_PSIZE && usage_index == 0 {
        Some(14u16)
    } else {
        None
    }
}

/// The attribute that a vertex element feeds, if the shader reads it.
pub fn ff_attr_index_for_semantic(usage: u8, usage_index: u8) -> (r: Option<u16>)
    ensures
        r == attr_index(usage, usage_index),
{
    if (usage == D3DDECLUSAGE_POSITION || usage == D3DDECLUSAGE_POSITIONT) && usage_index == 0 {
        Some(0)
    } else if usage == D3DDECLUSAGE_NORMAL && usage_index == 0 {
        Some(1)
    } else if usage == D3DDECLUSAGE_COLOR && usage_index < 2 {
        Some(2 + usage_index as u16)
    } else if usage == D3DDECLUSAGE_TEXCOORD && usage_index < 8 {
        Some(4 + usage_index as u16)
    } else if usage == D3DDECLUSAGE_BLENDWEIGHT && usage_index == 0 {
        Some(12)
    } else if usage == D3DDECLUSAGE_BLENDINDICES && usage_index == 0 {
        Some(13)
    } else if usage == D3DDECLUSAGE_PSIZE && usage_index == 0 {
        Some(14)
    } else {
        None
    }
}

} // verus!
