//! What is bound on the encoder of the current pass, so that nothing is bound twice.

use crate::metal::{Command, CommandType, CullMode, VERTEX_STREAM_SLOTS};
use vstd::prelude::*;

verus! {

/// Fragment texture and sampler slots.
pub const LAST_BOUND_MAX_STAGES: usize = 16;

/// Vertex texture and sampler slots.
pub const VERTEX_SAMPLER_SLOTS: usize = 4;

/// What a sampler slot records for the default sampler. No sampler has this handle.
pub const NULL_TEXTURE_SAMPLER_SENTINEL: u64 = 0xffff_ffff_ffff_fff7;

/// What a texture slot records for the stand-in texture of a kind.
pub fn null_texture_tex_sentinel(kind: u64) -> (r: u64)
    ensures
        r == u64::MAX - kind,
{
    u64::MAX - kind
}

/// What a sampler slot records for a handle: zero installs the default sampler.
pub fn sampler_cache_key(handle: u64) -> (r: u64)
    ensures
        r == sampler_key(handle),
        r != 0,
{
    if handle == 0 {
        NULL_TEXTURE_SAMPLER_SENTINEL
    } else {
        handle
    }
}

/// What a sampler slot records for a handle.
pub open spec fn sampler_key(handle: u64) -> u64 {
    if handle == 0 {
        NULL_TEXTURE_SAMPLER_SENTINEL
    } else {
        handle
    }
}

/// What a vertex stream slot needs.
///
/// `Same`: nothing. `Changed`: a bind. `ReusedHandle`: a bind too, since the handle names
/// another buffer than before.
#[derive(Clone, Copy, Debug, PartialEq, Eq, Structural)]
pub enum VertexBufferBind {
    Same,
    Changed,
    ReusedHandle,
}

/// The bindings of the current encoder, each with a value that means "nothing yet".
pub struct LastBoundCache {
    fragment_samplers: [u64; 16],
    fragment_textures: [u64; 16],
    vertex_textures: [u64; 4],
    vertex_samplers: [u64; 4],
    pipeline: u64,
    depth_stencil: u64,
    stencil_reference: u32,
    cull_mode: Option<CullMode>,
    vs_constants: Vec<u8>,
    vs_pos_fixup: Vec<u8>,
    vs_draw: Vec<u8>,
    ps_constants: Vec<u8>,
    ps_alpha_ref: Vec<u8>,
    ps_fog_color: Vec<u8>,
    ps_bump_env: Vec<u8>,
    ps_lod_bias: Vec<u8>,
    vertex_buffers: [(u64, u32, u64); 16],
    scissor_rect: Option<(u32, u32, u32, u32)>,
    blend_color: u32,
    depth_bias_bits: (u32, u32),
}

/// What a [`LastBoundCache`] knows.
#[verifier::ext_equal]
pub struct LastBoundView {
    pub fragment_samplers: Seq<u64>,
    pub fragment_textures: Seq<u64>,
    pub vertex_textures: Seq<u64>,
    pub vertex_samplers: Seq<u64>,
    pub pipeline: u64,
    pub depth_stencil: u64,
    pub stencil_reference: u32,
    pub cull_mode: Option<CullMode>,
    pub vs_constants: Seq<u8>,
    pub vs_pos_fixup: Seq<u8>,
    pub vs_draw: Seq<u8>,
    pub ps_constants: Seq<u8>,
    pub ps_alpha_ref: Seq<u8>,
    pub ps_fog_color: Seq<u8>,
    pub ps_bump_env: Seq<u8>,
    pub ps_lod_bias: Seq<u8>,
    /// Handle, byte offset, and which allocation stands behind the handle.
    pub vertex_buffers: Seq<(u64, u32, u64)>,
    pub scissor_rect: Option<(u32, u32, u32, u32)>,
    pub blend_color: u32,
    pub depth_bias_bits: (u32, u32),
}

impl View for LastBoundCache {
    type V = LastBoundView;

    closed spec fn view(&self) -> LastBoundView {
        LastBoundView {
            fragment_samplers: self.fragment_samplers@,
            fragment_textures: self.fragment_textures@,
            vertex_textures: self.vertex_textures@,
            vertex_samplers: self.vertex_samplers@,
            pipeline: self.pipeline,
            depth_stencil: self.depth_stencil,
            stencil_reference: self.stencil_reference,
            cull_mode: self.cull_mode,
            vs_constants: self.vs_constants@,
            vs_pos_fixup: self.vs_pos_fixup@,
            vs_draw: self.vs_draw@,
            ps_constants: self.ps_constants@,
            ps_alpha_ref: self.ps_alpha_ref@,
            ps_fog_color: self.ps_fog_color@,
            ps_bump_env: self.ps_bump_env@,
            ps_lod_bias: self.ps_lod_bias@,
            vertex_buffers: self.vertex_buffers@,
            scissor_rect: self.scissor_rect,
            blend_color: self.blend_color,
            depth_bias_bits: self.depth_bias_bits,
        }
    }
}

impl LastBoundView {
    /// What a fresh encoder has bound: nothing, and opaque white as the blend constant.
    pub open spec fn fresh() -> LastBoundView {
        LastBoundView {
            fragment_samplers: Seq::new(16, |i: int| 0u64),
            fragment_textures: Seq::new(16, |i: int| 0u64),
            vertex_textures: Seq::new(4, |i: int| 0u64),
            vertex_samplers: Seq::new(4, |i: int| 0u64),
            pipeline: 0,
            depth_stencil: 0,
            stencil_reference: 0,
            cull_mode: None,
            vs_constants: Seq::empty(),
            vs_pos_fixup: Seq::empty(),
            vs_draw: Seq::empty(),
            ps_constants: Seq::empty(),
            ps_alpha_ref: Seq::empty(),
            ps_fog_color: Seq::empty(),
            ps_bump_env: Seq::empty(),
            ps_lod_bias: Seq::empty(),
            vertex_buffers: Seq::new(16, |i: int| (0u64, 0u32, 0u64)),
            scissor_rect: None,
            blend_color: 0xffff_ffff,
            depth_bias_bits: (0, 0),
        }
    }
}

/// Makes `cache` hold `bytes`, and says whether it did not before.
pub fn update_inline_bytes(cache: &mut Vec<u8>, bytes: &[u8]) -> (r: bool)
    ensures
        final(cache)@ == bytes@,
        r == (old(cache)@ != bytes@),
{
    if cache.len() == bytes.len() {
        let mut i: usize = 0;
        let mut same: bool = true;
        while i < bytes.len() && same
            invariant
                cache@ == old(cache)@,
                cache@.len() == bytes@.len(),
                i <= bytes@.len(),
                same ==> forall|j: int| 0 <= j < i ==> cache@[j] == bytes@[j],
                !same ==> cache@ != bytes@,
            decreases bytes@.len() - i,
        {
            if cache[i] != bytes[i] {
                same = false;
            }
            i += 1;
        }
        if same {
            assert(cache@ =~= bytes@);
            return false;
        }
    }
    cache.clear();
    let mut i: usize = 0;
    while i < bytes.len()
        invariant
            i <= bytes@.len(),
            cache@ =~= bytes@.take(i as int),
        decreases bytes@.len() - i,
    {
        cache.push(bytes[i]);
        i += 1;
    }
    assert(bytes@.take(i as int) =~= bytes@);
    true
}

impl LastBoundCache {
    /// A cache for a fresh encoder.
    pub fn new() -> (r: LastBoundCache)
        ensures
            r@ == LastBoundView::fresh(),
    {
        let r = LastBoundCache {
            fragment_samplers: [0; 16],
            fragment_textures: [0; 16],
            vertex_textures: [0; 4],
            vertex_samplers: [0; 4],
            pipeline: 0,
            depth_stencil: 0,
            stencil_reference: 0,
            cull_mode: None,
            vs_constants: Vec::new(),
            vs_pos_fixup: Vec::new(),
            vs_draw: Vec::new(),
            ps_constants: Vec::new(),
            ps_alpha_ref: Vec::new(),
            ps_fog_color: Vec::new(),
            ps_bump_env: Vec::new(),
            ps_lod_bias: Vec::new(),
            vertex_buffers: [(0, 0, 0); 16],
            scissor_rect: None,
            blend_color: 0xffff_ffff,
            depth_bias_bits: (0, 0),
        };
        assert(r@ =~= LastBoundView::fresh());
        r
    }

    /// Forgets every binding, for a fresh encoder.
    pub fn reset(&mut self)
        ensures
            final(self)@ == LastBoundView::fresh(),
    {
        self.fragment_samplers = [0; 16];
        self.fragment_textures = [0; 16];
        self.vertex_textures = [0; 4];
        self.vertex_samplers = [0; 4];
        self.pipeline = 0;
        self.depth_stencil = 0;
        self.stencil_reference = 0;
        self.cull_mode = None;
        self.vs_constants.clear();
        self.vs_pos_fixup.clear();
        self.vs_draw.clear();
        self.ps_constants.clear();
        self.ps_alpha_ref.clear();
        self.ps_fog_color.clear();
        self.ps_bump_env.clear();
        self.ps_lod_bias.clear();
        self.vertex_buffers = [(0, 0, 0); 16];
        self.scissor_rect = None;
        self.blend_color = 0xffff_ffff;
        self.depth_bias_bits = (0, 0);
        assert(self@ =~= LastBoundView::fresh());
    }

    /// Records a fragment sampler, and says whether it has to be bound.
    pub fn fragment_sampler_changed(&mut self, stage: u32, handle: u64) -> (r: bool)
        requires
            stage < 16,
        ensures
            r == (old(self)@.fragment_samplers[stage as int] != handle),
            final(self)@ == (LastBoundView {
                fragment_samplers: old(self)@.fragment_samplers.update(stage as int, handle),
                ..old(self)@
            }),
    {
        let changed: bool = self.fragment_samplers[stage as usize] != handle;
        self.fragment_samplers[stage as usize] = handle;
        changed
    }

    /// Records a vertex texture, and says whether it has to be bound.
    pub fn vertex_texture_changed(&mut self, slot: u32, handle: u64) -> (r: bool)
        requires
            slot < 4,
        ensures
            r == (old(self)@.vertex_textures[slot as int] != handle),
            final(self)@ == (LastBoundView {
                vertex_textures: old(self)@.vertex_textures.update(slot as int, handle),
                ..old(self)@
            }),
    {
        let changed: bool = self.vertex_textures[slot as usize] != handle;
        self.vertex_textures[slot as usize] = handle;
        changed
    }

    /// Records a vertex sampler, and says whether it has to be bound.
    pub fn vertex_sampler_changed(&mut self, slot: u32, handle: u64) -> (r: bool)
        requires
            slot < 4,
        ensures
            r == (old(self)@.vertex_samplers[slot as int] != handle),
            final(self)@ == (LastBoundView {
                vertex_samplers: old(self)@.vertex_samplers.update(slot as int, handle),
                ..old(self)@
            }),
    {
        let changed: bool = self.vertex_samplers[slot as usize] != handle;
        self.vertex_samplers[slot as usize] = handle;
        changed
    }

    /// Records a fragment texture, and says whether it has to be bound.
    pub fn fragment_texture_changed(&mut self, stage: u32, handle: u64) -> (r: bool)
        requires
            stage < 16,
        ensures
            r == (old(self)@.fragment_textures[stage as int] != handle),
            final(self)@ == (LastBoundView {
                fragment_textures: old(self)@.fragment_textures.update(stage as int, handle),
                ..old(self)@
            }),
    {
        let changed: bool = self.fragment_textures[stage as usize] != handle;
        self.fragment_textures[stage as usize] = handle;
        changed
    }

    /// Records a pipeline, and says whether it has to be bound.
    pub fn pipeline_changed(&mut self, handle: u64) -> (r: bool)
        ensures
            r == (old(self)@.pipeline != handle),
            final(self)@ == (LastBoundView { pipeline: handle, ..old(self)@ }),
    {
        let changed: bool = self.pipeline != handle;
        self.pipeline = handle;
        changed
    }

    /// Records a depth-stencil state, and says whether it has to be bound.
    pub fn depth_stencil_changed(&mut self, handle: u64) -> (r: bool)
        ensures
            r == (old(self)@.depth_stencil != handle),
            final(self)@ == (LastBoundView { depth_stencil: handle, ..old(self)@ }),
    {
        let changed: bool = self.depth_stencil != handle;
        self.depth_stencil = handle;
        changed
    }

    /// Records a cull mode, and says whether it has to be set.
    pub fn cull_mode_changed(&mut self, mode: CullMode) -> (r: bool)
        ensures
            r == (old(self)@.cull_mode != Some(mode)),
            final(self)@ == (LastBoundView { cull_mode: Some(mode), ..old(self)@ }),
    {
        let changed: bool = match self.cull_mode {
            Some(prev) => prev != mode,
            None => true,
        };
        self.cull_mode = Some(mode);
        changed
    }

    /// Records a vertex buffer, and says what its slot needs. `generation` tells allocations
    /// apart that had the same handle one after the other.
    pub fn vertex_buffer_changed(&mut self, slot: u32, handle: u64, offset: u32, generation: u64) -> (r:
        VertexBufferBind)
        requires
            slot < VERTEX_STREAM_SLOTS,
        ensures
            r == ({
                let cur = old(self)@.vertex_buffers[slot as int];
                if cur.0 != handle || cur.1 != offset {
                    VertexBufferBind::Changed
                } else if cur.2 != generation {
                    VertexBufferBind::ReusedHandle
                } else {
                    VertexBufferBind::Same
                }
            }),
            final(self)@ == (LastBoundView {
                vertex_buffers: old(self)@.vertex_buffers.update(
                    slot as int,
                    (handle, offset, generation),
                ),
                ..old(self)@
            }),
    {
        let cur: (u64, u32, u64) = self.vertex_buffers[slot as usize];
        self.vertex_buffers[slot as usize] = (handle, offset, generation);
        if cur.0 != handle || cur.1 != offset {
            VertexBufferBind::Changed
        } else if cur.2 != generation {
            VertexBufferBind::ReusedHandle
        } else {
            VertexBufferBind::Same
        }
    }

    /// Forgets the buffer of vertex stream 0, because something else was bound in its place.
    pub fn invalidate_vertex_buffer(&mut self)
        ensures
            final(self)@ == (LastBoundView {
                vertex_buffers: old(self)@.vertex_buffers.update(0, (0, 0, 0)),
                ..old(self)@
            }),
    {
        self.invalidate_vertex_buffer_slot(0);
    }

    /// Forgets the buffer of a vertex stream.
    pub fn invalidate_vertex_buffer_slot(&mut self, slot: u32)
        requires
            slot < VERTEX_STREAM_SLOTS,
        ensures
            final(self)@ == (LastBoundView {
                vertex_buffers: old(self)@.vertex_buffers.update(slot as int, (0, 0, 0)),
                ..old(self)@
            }),
    {
        self.vertex_buffers[slot as usize] = (0, 0, 0);
    }

    /// Records a scissor rectangle, and says whether it has to be set.
    pub fn scissor_rect_changed(&mut self, rect: (u32, u32, u32, u32)) -> (r: bool)
        ensures
            r == (old(self)@.scissor_rect != Some(rect)),
            final(self)@ == (LastBoundView { scissor_rect: Some(rect), ..old(self)@ }),
    {
        let changed: bool = match self.scissor_rect {
            Some(prev) => prev.0 != rect.0 || prev.1 != rect.1 || prev.2 != rect.2 || prev.3
                != rect.3,
            None => true,
        };
        self.scissor_rect = Some(rect);
        changed
    }

    /// Records a stencil reference, and says whether it has to be set.
    pub fn stencil_reference_changed(&mut self, value: u32) -> (r: bool)
        ensures
            r == (old(self)@.stencil_reference != value),
            final(self)@ == (LastBoundView { stencil_reference: value, ..old(self)@ }),
    {
        let changed: bool = self.stencil_reference != value;
        self.stencil_reference = value;
        changed
    }

    /// Records a blend constant, and says whether it has to be set.
    pub fn blend_color_changed(&mut self, d3dcolor: u32) -> (r: bool)
        ensures
            r == (old(self)@.blend_color != d3dcolor),
            final(self)@ == (LastBoundView { blend_color: d3dcolor, ..old(self)@ }),
    {
        let changed: bool = self.blend_color != d3dcolor;
        self.blend_color = d3dcolor;
        changed
    }

    /// Records a depth bias, given as IEEE bits, and says whether it has to be set.
    pub fn depth_bias_changed(&mut self, depth_bias: u32, slope_scale: u32) -> (r: bool)
        ensures
            r == (old(self)@.depth_bias_bits != (depth_bias, slope_scale)),
            final(self)@ == (LastBoundView {
                depth_bias_bits: (depth_bias, slope_scale),
                ..old(self)@
            }),
    {
        let changed: bool = self.depth_bias_bits.0 != depth_bias || self.depth_bias_bits.1
            != slope_scale;
        self.depth_bias_bits = (depth_bias, slope_scale);
        changed
    }

    /// Records the vertex constants, and says whether they have to be bound.
    pub fn vs_constants_changed(&mut self, bytes: &[u8]) -> (r: bool)
        ensures
            r == (old(self)@.vs_constants != bytes@),
            final(self)@ == (LastBoundView { vs_constants: bytes@, ..old(self)@ }),
    {
        update_inline_bytes(&mut self.vs_constants, bytes)
    }

    /// Records the position fixup, and says whether it has to be bound.
    pub fn vs_pos_fixup_changed(&mut self, bytes: &[u8]) -> (r: bool)
        ensures
            r == (old(self)@.vs_pos_fixup != bytes@),
            final(self)@ == (LastBoundView { vs_pos_fixup: bytes@, ..old(self)@ }),
    {
        update_inline_bytes(&mut self.vs_pos_fixup, bytes)
    }

    /// Records the per-draw vertex values, and says whether they have to be bound.
    pub fn vs_draw_changed(&mut self, bytes: &[u8]) -> (r: bool)
        ensures
            r == (old(self)@.vs_draw != bytes@),
            final(self)@ == (LastBoundView { vs_draw: bytes@, ..old(self)@ }),
    {
        update_inline_bytes(&mut self.vs_draw, bytes)
    }

    /// Records the pixel constants, and says whether they have to be bound.
    pub fn ps_constants_changed(&mut self, bytes: &[u8]) -> (r: bool)
        ensures
            r == (old(self)@.ps_constants != bytes@),
            final(self)@ == (LastBoundView { ps_constants: bytes@, ..old(self)@ }),
    {
        update_inline_bytes(&mut self.ps_constants, bytes)
    }

    /// Records the alpha reference, and says whether it has to be bound.
    pub fn ps_alpha_ref_changed(&mut self, bytes: &[u8]) -> (r: bool)
        ensures
            r == (old(self)@.ps_alpha_ref != bytes@),
            final(self)@ == (LastBoundView { ps_alpha_ref: bytes@, ..old(self)@ }),
    {
        update_inline_bytes(&mut self.ps_alpha_ref, bytes)
    }

    /// Records the fog colour, and says whether it has to be bound.
    pub fn ps_fog_color_changed(&mut self, bytes: &[u8]) -> (r: bool)
        ensures
            r == (old(self)@.ps_fog_color != bytes@),
            final(self)@ == (LastBoundView { ps_fog_color: bytes@, ..old(self)@ }),
    {
        update_inline_bytes(&mut self.ps_fog_color, bytes)
    }

    /// Records the bump-environment values, and says whether they have to be bound.
    pub fn ps_bump_env_changed(&mut self, bytes: &[u8]) -> (r: bool)
        ensures
            r == (old(self)@.ps_bump_env != bytes@),
            final(self)@ == (LastBoundView { ps_bump_env: bytes@, ..old(self)@ }),
    {
        update_inline_bytes(&mut self.ps_bump_env, bytes)
    }

    /// Records the level-of-detail biases, and says whether they have to be bound.
    pub fn ps_lod_bias_changed(&mut self, bytes: &[u8]) -> (r: bool)
        ensures
            r == (old(self)@.ps_lod_bias != bytes@),
            final(self)@ == (LastBoundView { ps_lod_bias: bytes@, ..old(self)@ }),
    {
        update_inline_bytes(&mut self.ps_lod_bias, bytes)
    }
}

impl Default for LastBoundCache {
    fn default() -> (r: LastBoundCache)
        ensures
            r@ == LastBoundView::fresh(),
    {
        LastBoundCache::new()
    }
}

/// What the recorded commands really bound, to hold a [`LastBoundCache`] against.
pub struct DebugBoundShadow {
    fragment_samplers: [u64; 16],
    fragment_textures: [u64; 16],
    pipeline: u64,
    depth_stencil: u64,
    cull_mode: Option<u32>,
    vertex_buffers: [(u64, u64); 16],
    scissor_rect: Option<(u32, u64, u64)>,
    depth_bias: (u32, u64),
}

/// What a [`DebugBoundShadow`] saw, in the packed form of the commands.
#[verifier::ext_equal]
pub struct ShadowView {
    pub fragment_samplers: Seq<u64>,
    pub fragment_textures: Seq<u64>,
    pub pipeline: u64,
    pub depth_stencil: u64,
    pub cull_mode: Option<u32>,
    pub vertex_buffers: Seq<(u64, u64)>,
    pub scissor_rect: Option<(u32, u64, u64)>,
    pub depth_bias: (u32, u64),
}

impl View for DebugBoundShadow {
    type V = ShadowView;

    closed spec fn view(&self) -> ShadowView {
        ShadowView {
            fragment_samplers: self.fragment_samplers@,
            fragment_textures: self.fragment_textures@,
            pipeline: self.pipeline,
            depth_stencil: self.depth_stencil,
            cull_mode: self.cull_mode,
            vertex_buffers: self.vertex_buffers@,
            scissor_rect: self.scissor_rect,
            depth_bias: self.depth_bias,
        }
    }
}

impl ShadowView {
    /// Nothing recorded yet.
    pub open spec fn fresh() -> ShadowView {
        ShadowView {
            fragment_samplers: Seq::new(16, |i: int| 0u64),
            fragment_textures: Seq::new(16, |i: int| 0u64),
            pipeline: 0,
            depth_stencil: 0,
            cull_mode: None,
            vertex_buffers: Seq::new(16, |i: int| (0u64, 0u64)),
            scissor_rect: None,
            depth_bias: (0, 0),
        }
    }

    /// Whether a command names a fragment slot that exists, if it names one.
    pub open spec fn slot_exists(cmd: Command) -> bool {
        (cmd.cmd == CommandType::SetFragmentTexture || cmd.cmd
            == CommandType::SetFragmentSamplerState || cmd.cmd
            == CommandType::SetFragmentNullTexture) ==> cmd.param_a < 16
    }

    /// The record after one more command.
    pub open spec fn recorded(self, cmd: Command) -> ShadowView {
        let slot = cmd.param_a as int;
        match cmd.cmd {
            CommandType::SetRenderPipelineState => ShadowView { pipeline: cmd.param_b, ..self },
            CommandType::SetDepthStencilState => ShadowView { depth_stencil: cmd.param_b, ..self },
            CommandType::SetCullMode => ShadowView { cull_mode: Some(cmd.param_a), ..self },
            CommandType::SetFragmentTexture => ShadowView {
                fragment_textures: self.fragment_textures.update(slot, cmd.param_b),
                ..self
            },
            CommandType::SetFragmentSamplerState => ShadowView {
                fragment_samplers: self.fragment_samplers.update(slot, sampler_key(cmd.param_b)),
                ..self
            },
            CommandType::SetFragmentNullTexture => ShadowView {
                fragment_textures: self.fragment_textures.update(
                    slot,
                    (u64::MAX - cmd.param_b) as u64,
                ),
                fragment_samplers: self.fragment_samplers.update(
                    slot,
                    NULL_TEXTURE_SAMPLER_SENTINEL,
                ),
                ..self
            },
            CommandType::SetScissorRect => ShadowView {
                scissor_rect: Some((cmd.param_a, cmd.param_b, cmd.param_c)),
                ..self
            },
            CommandType::SetVertexBuffer => if cmd.param_a < VERTEX_STREAM_SLOTS {
                ShadowView {
                    vertex_buffers: self.vertex_buffers.update(slot, (cmd.param_b, cmd.param_c)),
                    ..self
                }
            } else {
                self
            },
            CommandType::SetDepthBias => ShadowView {
                depth_bias: (cmd.param_a, cmd.param_b),
                ..self
            },
            CommandType::SetVertexBytes | CommandType::SetVertexBytesAt => if cmd.param_a
                < VERTEX_STREAM_SLOTS {
                ShadowView { vertex_buffers: self.vertex_buffers.update(slot, (0, 0)), ..self }
            } else {
                self
            },
            _ => self,
        }
    }

    /// Whether a cache agrees with the record in every slot that both keep.
    pub open spec fn agrees_with(self, cache: LastBoundView) -> bool {
        &&& cache.pipeline == self.pipeline
        &&& cache.depth_stencil == self.depth_stencil
        &&& (match cache.cull_mode {
            Some(c) => Some(c.code_spec()),
            None => None,
        }) == self.cull_mode
        &&& forall|i: int|
            0 <= i < 16 ==> ((#[trigger] cache.vertex_buffers[i]).0, cache.vertex_buffers[i].1 as u64)
                == self.vertex_buffers[i]
        &&& (match cache.scissor_rect {
            Some((x, y, w, h)) => Some((x, y as u64, crate::metal::pair64_spec(w, h))),
            None => None,
        }) == self.scissor_rect
        &&& (cache.depth_bias_bits.0, cache.depth_bias_bits.1 as u64) == self.depth_bias
        &&& cache.fragment_textures == self.fragment_textures
        &&& cache.fragment_samplers == self.fragment_samplers
    }
}

impl DebugBoundShadow {
    /// A record for a fresh encoder.
    pub fn new() -> (r: DebugBoundShadow)
        ensures
            r@ == ShadowView::fresh(),
    {
        let r = DebugBoundShadow {
            fragment_samplers: [0; 16],
            fragment_textures: [0; 16],
            pipeline: 0,
            depth_stencil: 0,
            cull_mode: None,
            vertex_buffers: [(0, 0); 16],
            scissor_rect: None,
            depth_bias: (0, 0),
        };
        assert(r@ =~= ShadowView::fresh());
        r
    }

    /// Notes what a command binds.
    pub fn record(&mut self, cmd: &Command)
        requires
            ShadowView::slot_exists(*cmd),
        ensures
            final(self)@ == old(self)@.recorded(*cmd),
    {
        match cmd.cmd {
            CommandType::SetRenderPipelineState => {
                self.pipeline = cmd.param_b;
            },
            CommandType::SetDepthStencilState => {
                self.depth_stencil = cmd.param_b;
            },
            CommandType::SetCullMode => {
                self.cull_mode = Some(cmd.param_a);
            },
            CommandType::SetFragmentTexture => {
                self.fragment_textures[cmd.param_a as usize] = cmd.param_b;
            },
            CommandType::SetFragmentSamplerState => {
                self.fragment_samplers[cmd.param_a as usize] = sampler_cache_key(cmd.param_b);
            },
            CommandType::SetFragmentNullTexture => {
                self.fragment_textures[cmd.param_a as usize] = null_texture_tex_sentinel(
                    cmd.param_b,
                );
                self.fragment_samplers[cmd.param_a as usize] = NULL_TEXTURE_SAMPLER_SENTINEL;
            },
            CommandType::SetScissorRect => {
                self.scissor_rect = Some((cmd.param_a, cmd.param_b, cmd.param_c));
            },
            CommandType::SetVertexBuffer => {
                if cmd.param_a < VERTEX_STREAM_SLOTS {
                    self.vertex_buffers[cmd.param_a as usize] = (cmd.param_b, cmd.param_c);
                }
            },
            CommandType::SetDepthBias => {
                self.depth_bias = (cmd.param_a, cmd.param_b);
            },
            CommandType::SetVertexBytes => {
                if cmd.param_a < VERTEX_STREAM_SLOTS {
                    self.vertex_buffers[cmd.param_a as usize] = (0, 0);
                }
            },
            CommandType::SetVertexBytesAt => {
                if cmd.param_a < VERTEX_STREAM_SLOTS {
                    self.vertex_buffers[cmd.param_a as usize] = (0, 0);
                }
            },
            _ => {},
        }
    }
}

impl Default for DebugBoundShadow {
    fn default() -> (r: DebugBoundShadow)
        ensures
            r@ == ShadowView::fresh(),
    {
        DebugBoundShadow::new()
    }
}

impl LastBoundCache {
    fn buffers_in_sync(&self, shadow: &DebugBoundShadow) -> (r: bool)
        ensures
            r == (forall|i: int|
                0 <= i < 16 ==> (
                (#[trigger] self@.vertex_buffers[i]).0,
                self@.vertex_buffers[i].1 as u64,
                ) == shadow@.vertex_buffers[i]),
    {
        let mut i: usize = 0;
        while i < 16
            invariant
                i <= 16,
                forall|j: int|
                    0 <= j < i ==> (
                    (#[trigger] self@.vertex_buffers[j]).0,
                    self@.vertex_buffers[j].1 as u64,
                    ) == shadow@.vertex_buffers[j],
            decreases 16 - i,
        {
            if self.vertex_buffers[i].0 != shadow.vertex_buffers[i].0
                || self.vertex_buffers[i].1 as u64 != shadow.vertex_buffers[i].1 {
                assert((self@.vertex_buffers[i as int].0, self@.vertex_buffers[i as int].1 as u64)
                    != shadow@.vertex_buffers[i as int]);
                return false;
            }
            i += 1;
        }
        true
    }

    fn stages_in_sync(&self, shadow: &DebugBoundShadow) -> (r: bool)
        ensures
            r == (self@.fragment_textures == shadow@.fragment_textures
                && self@.fragment_samplers == shadow@.fragment_samplers),
    {
        let mut i: usize = 0;
        while i < 16
            invariant
                i <= 16,
                forall|j: int|
                    0 <= j < i ==> self@.fragment_textures[j] == shadow@.fragment_textures[j]
                        && self@.fragment_samplers[j] == shadow@.fragment_samplers[j],
            decreases 16 - i,
        {
            if self.fragment_textures[i] != shadow.fragment_textures[i]
                || self.fragment_samplers[i] != shadow.fragment_samplers[i] {
                assert(self@.fragment_textures[i as int] != shadow@.fragment_textures[i as int]
                    || self@.fragment_samplers[i as int] != shadow@.fragment_samplers[i as int]);
                return false;
            }
            i += 1;
        }
        assert(self@.fragment_textures =~= shadow@.fragment_textures);
        assert(self@.fragment_samplers =~= shadow@.fragment_samplers);
        true
    }

    /// Whether the cache agrees with what was recorded.
    pub fn in_sync(&self, shadow: &DebugBoundShadow) -> (r: bool)
        ensures
            r == shadow@.agrees_with(self@),
    {
        let cull: bool = match (self.cull_mode, shadow.cull_mode) {
            (Some(c), Some(s)) => c.code() == s,
            (None, None) => true,
            _ => false,
        };
        let scissor: bool = match (self.scissor_rect, shadow.scissor_rect) {
            (Some(c), Some(s)) => c.0 == s.0 && c.1 as u64 == s.1 && crate::metal::pair64(c.2, c.3)
                == s.2,
            (None, None) => true,
            _ => false,
        };
        self.pipeline == shadow.pipeline && self.depth_stencil == shadow.depth_stencil && cull
            && self.buffers_in_sync(shadow) && scissor && self.depth_bias_bits.0
            == shadow.depth_bias.0 && self.depth_bias_bits.1 as u64 == shadow.depth_bias.1
            && self.stages_in_sync(shadow)
    }
}

} // verus!
