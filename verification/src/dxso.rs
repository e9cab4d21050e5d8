//! Shader text for the fixed-function pipeline.

pub mod ff;
pub mod binding_laws;
pub mod ff_laws;
pub mod ff_ps;
pub mod ff_vs;
pub mod ps_meaning;
pub mod ps_pixel;
pub mod ps_sample_text;
pub mod ps_text;
pub mod shader_bindings;
pub mod shading;
pub mod usage;
pub mod variant;
pub mod vs_coords;
pub mod vs_input;
pub mod vs_light_text;
pub mod vs_lighting;
pub mod vs_meaning;
pub mod vs_position;
pub mod vs_position_text;
pub mod vs_text;

pub use ff::{
    ff_attr_index_for_semantic, tt_count, tt_projected, FfPsKey, FfStage, FfVsFlags, FfVsKey,
};
pub use ff_ps::{emit_ps_ff, emit_ps_ff_named};
pub use ff_vs::{emit_vs_ff, emit_vs_ff_named, MatColorFlags};
pub use usage::DeclUsage;
pub use variant::{SharedText, VariantFlags, VariantKey, DEFAULT_PS_ENTRY, DEFAULT_VS_ENTRY};
