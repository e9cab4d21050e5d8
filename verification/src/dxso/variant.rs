//! What a pixel shader depends on besides its own state.

use vstd::prelude::*;

verus! {

/// The name of a vertex entry point that was given no other.
pub const DEFAULT_VS_ENTRY: &'static str = "mtld3d_vs";

/// The name of a pixel entry point that was given no other.
pub const DEFAULT_PS_ENTRY: &'static str = "mtld3d_ps";

/// Yes-or-no properties of a variant.
#[derive(Clone, Copy, Debug, PartialEq, Eq, Hash, Structural)]
pub struct VariantFlags {
    /// Table fog measures the homogeneous w, not the depth.
    pub fog_source_w: bool,
    /// Colours are not interpolated.
    pub flat_shade: bool,
    /// The shader encodes sRGB itself.
    pub srgb_write: bool,
    /// Points are textured across their extent.
    pub point_sprite: bool,
    /// The shader writes a coverage mask.
    pub sample_mask: bool,
    /// Some sampler has a level-of-detail bias.
    pub lod_bias: bool,
}

impl VariantFlags {
    /// No property set.
    pub open spec fn none_spec() -> VariantFlags {
        VariantFlags {
            fog_source_w: false,
            flat_shade: false,
            srgb_write: false,
            point_sprite: false,
            sample_mask: false,
            lod_bias: false,
        }
    }

    /// No property set.
    pub fn none() -> (r: VariantFlags)
        ensures
            r == Self::none_spec(),
    {
        VariantFlags {
            fog_source_w: false,
            flat_shade: false,
            srgb_write: false,
            point_sprite: false,
            sample_mask: false,
            lod_bias: false,
        }
    }
}

/// The state outside a pixel shader that changes its text. Masks have a bit per sampler.
#[derive(Clone, Copy, Debug, PartialEq, Eq, Hash, Structural)]
pub struct VariantKey {
    /// The alpha test function, zero for none.
    pub alpha_func: u8,
    /// Whether fog comes from the vertex, nonzero for yes.
    pub fog_mode: u8,
    /// The per-pixel fog function, zero for none.
    pub fog_table_mode: u8,
    pub depth_sampler_mask: u16,
    pub depth_fetch_mask: u16,
    pub volume_sampler_mask: u16,
    pub cube_sampler_mask: u16,
    pub tt_projected_mask: u8,
    pub color_out_mask: u8,
    pub sample_mask: u32,
    pub flags: VariantFlags,
}

impl VariantKey {
    /// The variant of a draw with nothing special about it.
    pub open spec fn plain_spec() -> VariantKey {
        VariantKey {
            alpha_func: 0,
            fog_mode: 0,
            fog_table_mode: 0,
            depth_sampler_mask: 0,
            depth_fetch_mask: 0,
            volume_sampler_mask: 0,
            cube_sampler_mask: 0,
            tt_projected_mask: 0,
            color_out_mask: 0,
            sample_mask: 0,
            flags: VariantFlags::none_spec(),
        }
    }

    /// The variant of a draw with nothing special about it.
    pub fn plain() -> (r: VariantKey)
        ensures
            r == Self::plain_spec(),
    {
        VariantKey {
            alpha_func: 0,
            fog_mode: 0,
            fog_table_mode: 0,
            depth_sampler_mask: 0,
            depth_fetch_mask: 0,
            volume_sampler_mask: 0,
            cube_sampler_mask: 0,
            tt_projected_mask: 0,
            color_out_mask: 0,
            sample_mask: 0,
            flags: VariantFlags::none(),
        }
    }

    /// Whether the colour is blended with fog.
    pub open spec fn fog_blend_active_spec(self) -> bool {
        self.fog_mode != 0 || self.fog_table_mode != 0
    }

    /// Whether the colour is blended with fog.
    pub fn fog_blend_active(&self) -> (r: bool)
        ensures
            r == self.fog_blend_active_spec(),
    {
        self.fog_mode != 0 || self.fog_table_mode != 0
    }
}

/// Shader text that every emitter shares.
pub struct SharedText {
    /// The declaration of the per-draw vertex values.
    pub vs_draw: String,
    /// The function that encodes sRGB.
    pub srgb_write_helper: String,
    /// What makes point coordinates into texture coordinates.
    pub point_sprite_prologue: String,
    /// What blends `oC0` with the fog of the variant at hand.
    pub fog_blend: String,
}

} // verus!
