//! The render-pass state machine of one frame.
//!
//! [`PassState`] collects commands into passes. A pass breaks when an
//! attachment changes, and a `Clear` becomes the load action of a pass where
//! that is indistinguishable from painting it. At the end of the frame a
//! handful of rules settle the load and store actions of every pass:
//!
//! * Rule A: the first use of an attachment in a frame need not load it.
//! * Rule B: the last use of a depth attachment in a frame need not store it.
//! * Rule C: a colour attachment that its next user clears need not be stored.
//! * Rule D: the last use of an off-screen colour attachment need not store it.
//! * Rule E: a pass that only clears folds into the next pass on its targets.
//! * Rule F: a pass that draws nothing and stores nothing is dropped.
//! * Rule G: a pass that only clears loses a colour attachment nobody stores.
//! * Rule H: a pass whose draws all mask colour out loses its colour attachments.
//!
//! The state is described by [`PassStateView`], and every operation by a
//! function from one view to the next.

pub mod action_laws;
pub mod attachment;
pub mod cache;
pub mod cascade;
pub mod clear;
pub mod coalesce;
pub mod emit;
pub mod finalize;
pub mod laws;
pub mod merge;
pub mod model;
pub mod state;
pub mod store;
pub mod target;

pub use attachment::{
    BoundColorAttachment, CurrentAttachmentFlags, DepthResolve, ExtraColorAttachments, ExtraColorSlot,
    FrameReset, PassColorAttachment, SavedColorView, UploadPassTarget,
};
pub use cache::{
    null_texture_tex_sentinel, sampler_cache_key, DebugBoundShadow, LastBoundCache, LastBoundView, ShadowView,
    VertexBufferBind, LAST_BOUND_MAX_STAGES, NULL_TEXTURE_SAMPLER_SENTINEL, VERTEX_SAMPLER_SLOTS,
};
pub use cascade::occupied_bytes;
pub use merge::Access;
pub use model::{PassStateView, PassView};

use model::{in_bounds, shifted_ranges};
use crate::metal::{BlitCommand, Command, DepthResolveFilter, DirtyRange, PixelFormat, RenderScale};
use rustc_hash::{FxHashMap, FxHashSet};
use vstd::prelude::*;

verus! {

/// A viewport or scissor rectangle: left, top, width, height.
pub type Rect = (u32, u32, u32, u32);

/// How many emptied command vectors are kept for reuse.
pub const MAX_CMD_VEC_POOL: usize = 16;

/// How a pass fills a colour attachment before its first draw. Colours are IEEE bits.
#[derive(Clone, Copy, Debug, PartialEq, Eq, Structural)]
pub enum ColorLoad {
    Load,
    Clear { r: u32, g: u32, b: u32, a: u32 },
    DontCare,
}

/// How a pass fills its depth plane before its first draw. The value is IEEE bits.
#[derive(Clone, Copy, Debug, PartialEq, Eq, Structural)]
pub enum DepthLoad {
    Load,
    Clear { value: u32 },
    DontCare,
}

/// How a pass fills its stencil plane before its first draw.
#[derive(Clone, Copy, Debug, PartialEq, Eq, Structural)]
pub enum StencilLoad {
    Load,
    Clear { value: u32 },
    DontCare,
}

/// Whether a pass writes an attachment back when it ends.
#[derive(Clone, Copy, Debug, PartialEq, Eq, Structural)]
pub enum StoreAction {
    Store,
    DontCare,
}

/// What became of a depth clear.
///
/// `Folded`: it is, or will be, the load action of a pass. `EmitQuad`: the caller paints
/// it inside the open pass. `NoOp`: there was nothing to clear and nothing changed.
#[derive(Clone, Copy, Debug, PartialEq, Eq)]
pub enum DepthClearOutcome {
    Folded,
    NoOp,
    EmitQuad { value: u32, viewport: Rect, has_color: bool, color_format: PixelFormat },
}

/// What became of a stencil clear; the cases are those of [`DepthClearOutcome`].
#[derive(Clone, Copy, Debug, PartialEq, Eq)]
pub enum StencilClearOutcome {
    Folded,
    NoOp,
    EmitQuad { value: u32, viewport: Rect, has_color: bool, color_format: PixelFormat },
}

/// What became of a colour clear.
#[derive(Clone, Copy, Debug, PartialEq, Eq)]
pub enum ColorClearOutcome {
    Folded,
    EmitQuad { rgba: (u32, u32, u32, u32), viewport: Rect, color_format: PixelFormat },
}

/// Commands, and which of them paint colour clears: ranges that are not empty and end
/// with the commands at the latest.
struct CommandList {
    commands: Vec<Command>,
    color_clear_quad_ranges: Vec<(usize, usize)>,
}

impl CommandList {
    #[verifier::type_invariant]
    spec fn wf(self) -> bool {
        in_bounds(self.color_clear_quad_ranges@, self.commands@.len())
    }

    /// Commands that paint no colour clear.
    fn new(commands: Vec<Command>) -> (r: CommandList)
        ensures
            r.commands == commands,
            r.color_clear_quad_ranges@ == Seq::<(usize, usize)>::empty(),
    {
        CommandList { commands, color_clear_quad_ranges: Vec::new() }
    }

    /// Appends a command.
    fn push(&mut self, cmd: Command)
        ensures
            final(self).commands@ == old(self).commands@.push(cmd),
            final(self).color_clear_quad_ranges@ == old(self).color_clear_quad_ranges@,
    {
        proof {
            use_type_invariant(&*self);
        }
        let mut ranges: Vec<(usize, usize)> = Vec::new();
        let mut commands: Vec<Command> = Vec::new();
        core::mem::swap(&mut self.color_clear_quad_ranges, &mut ranges);
        core::mem::swap(&mut self.commands, &mut commands);
        commands.push(cmd);
        self.commands = commands;
        self.color_clear_quad_ranges = ranges;
    }

    /// Marks the commands since `start` as a painted colour clear, unless there are none.
    fn mark_since(&mut self, start: usize)
        ensures
            final(self).commands@ == old(self).commands@,
            final(self).color_clear_quad_ranges@ == (if old(self).commands@.len() > start {
                old(self).color_clear_quad_ranges@.push((start, old(self).commands@.len() as usize))
            } else {
                old(self).color_clear_quad_ranges@
            }),
    {
        proof {
            use_type_invariant(&*self);
        }
        let end: usize = self.commands.len();
        if end > start {
            let mut ranges: Vec<(usize, usize)> = Vec::new();
            core::mem::swap(&mut self.color_clear_quad_ranges, &mut ranges);
            ranges.push((start, end));
            self.color_clear_quad_ranges = ranges;
        }
    }

    /// Appends commands and then those of another list, whose ranges move with them.
    fn join(&mut self, between: Vec<Command>, next: CommandList)
        ensures
            final(self).commands@ == old(self).commands@ + between@ + next.commands@,
            final(self).color_clear_quad_ranges@ == old(self).color_clear_quad_ranges@
                + shifted_ranges(
                next.color_clear_quad_ranges@,
                old(self).commands@.len() + between@.len(),
            ),
    {
        proof {
            use_type_invariant(&*self);
            use_type_invariant(&next);
        }
        let ghost a = self.commands@;
        let ghost old_ranges = self.color_clear_quad_ranges@;
        let mut ranges: Vec<(usize, usize)> = Vec::new();
        let mut commands: Vec<Command> = Vec::new();
        core::mem::swap(&mut self.color_clear_quad_ranges, &mut ranges);
        core::mem::swap(&mut self.commands, &mut commands);
        let mut head: Vec<Command> = between;
        commands.append(&mut head);
        let offset: usize = commands.len();
        let mut tail: Vec<Command> = next.commands;
        let moved: Vec<(usize, usize)> = next.color_clear_quad_ranges;
        let ghost moved_by = shifted_ranges(moved@, offset as nat);
        let ghost n = tail@.len();
        commands.append(&mut tail);
        let total: usize = commands.len();
        let mut k: usize = 0;
        while k < moved.len()
            invariant
                k <= moved@.len(),
                in_bounds(moved@, n),
                total == offset + n,
                moved_by == shifted_ranges(moved@, offset as nat),
                ranges@ == old_ranges + moved_by.take(k as int),
            decreases moved@.len() - k,
        {
            let r: (usize, usize) = moved[k];
            assert(moved@[k as int].0 < moved@[k as int].1 <= n);
            ranges.push((r.0 + offset, r.1 + offset));
            k += 1;
            assert(moved_by.take(k as int) =~= moved_by.take(k - 1).push(moved_by[k - 1]));
            assert(ranges@ =~= old_ranges + moved_by.take(k as int));
        }
        assert(moved_by.take(k as int) =~= moved_by);
        proof {
            assert forall|i: int| 0 <= i < ranges@.len() implies (#[trigger] ranges@[i]).0
                < ranges@[i].1 <= total by {
                if i < old_ranges.len() {
                    assert(old_ranges[i].0 < old_ranges[i].1 <= a.len());
                } else {
                    let m = i - old_ranges.len();
                    assert(moved@[m].0 < moved@[m].1 <= n);
                    assert(ranges@[i] == moved_by[m]);
                }
            }
        }
        self.commands = commands;
        self.color_clear_quad_ranges = ranges;
    }
}

/// One recorded render pass.
pub struct Pass {
    color: PassColorAttachment,
    extra_color: [PassColorAttachment; 3],
    depth_texture: u64,
    depth_level: u32,
    depth_load: DepthLoad,
    stencil_load: StencilLoad,
    depth_store: StoreAction,
    depth_resolve_texture: u64,
    depth_resolve_filter: DepthResolveFilter,
    viewport: Rect,
    list: CommandList,
    leading_blits: Vec<BlitCommand>,
    has_counting_visibility: bool,
    depth_is_sampleable: bool,
    color_writes_observed: bool,
}

impl View for Pass {
    type V = PassView;

    closed spec fn view(&self) -> PassView {
        PassView {
            color: self.color,
            extra: self.extra_color@,
            depth_texture: self.depth_texture,
            depth_level: self.depth_level,
            depth_load: self.depth_load,
            stencil_load: self.stencil_load,
            depth_store: self.depth_store,
            depth_resolve_texture: self.depth_resolve_texture,
            depth_resolve_filter: self.depth_resolve_filter,
            viewport: self.viewport,
            commands: self.list.commands@,
            leading_blits: self.leading_blits@,
            has_counting_visibility: self.has_counting_visibility,
            depth_is_sampleable: self.depth_is_sampleable,
            color_writes_observed: self.color_writes_observed,
            quad_ranges: self.list.color_clear_quad_ranges@,
        }
    }
}

/// The colour bindings taken off a [`PassState`], to be put back later.
pub struct SavedColorAttachments {
    texture: u64,
    msaa_texture: u64,
    msaa_srgb_texture: u64,
    sample_count: u8,
    slice: u32,
    level: u32,
    logical_size: (u32, u32),
    format: PixelFormat,
    scale: RenderScale,
    has_alpha: bool,
    extra: [ExtraColorSlot; 3],
}

impl View for SavedColorAttachments {
    type V = SavedColorView;

    closed spec fn view(&self) -> SavedColorView {
        SavedColorView {
            texture: self.texture,
            msaa_texture: self.msaa_texture,
            msaa_srgb_texture: self.msaa_srgb_texture,
            sample_count: self.sample_count,
            slice: self.slice,
            level: self.level,
            logical_size: self.logical_size,
            format: self.format,
            scale: self.scale,
            has_alpha: self.has_alpha,
            extra: self.extra@,
        }
    }
}

/// The passes of the frame being recorded, and what the rules need to know to finish them.
pub struct PassState {
    passes: Vec<Pass>,
    closed: bool,
    color_texture: u64,
    color_srgb: u64,
    color_msaa: u64,
    color_msaa_srgb: u64,
    color_sample_count: u8,
    color_subresource: u32,
    color_size: (u32, u32),
    color_logical_size: (u32, u32),
    color_format: PixelFormat,
    color_scale: RenderScale,
    extra: [ExtraColorSlot; 3],
    extra_present: [bool; 3],
    extra_srgb: [u64; 3],
    depth_texture: u64,
    depth_level: u32,
    depth_size: (u32, u32),
    depth_sample_count: u8,
    attachments: CurrentAttachmentFlags,
    pending_color_clear: Option<(u32, u32, u32, u32)>,
    pending_depth_clear: Option<u32>,
    pending_stencil_clear: Option<u32>,
    game_viewport: Rect,
    min_z: u32,
    max_z: u32,
    last_emitted_viewport: Option<(Rect, u32, u32)>,
    pending_leading_blits: Vec<BlitCommand>,
    seen_color: FxHashSet<(u64, u32)>,
    seen_depth: FxHashSet<u64>,
    segment_color: FxHashSet<(u64, u32)>,
    segment_depth: FxHashSet<u64>,
    blit_written: FxHashSet<u64>,
    backbuffer: u64,
    backbuffer_logical_size: (u32, u32),
    render_scale: RenderScale,
    ever_sampled: FxHashSet<u64>,
    frame_sampled: FxHashSet<u64>,
    twin_to_base: FxHashMap<u64, u64>,
    base_to_twin: FxHashMap<u64, u64>,
    srgb_write_enabled: bool,
    pass_srgb_write: bool,
    sampleable_depth: FxHashSet<u64>,
    cascade_probe: bool,
    caster_writes: FxHashMap<u64, u32>,
    cascade_samples: FxHashMap<u64, u32>,
    frame_seq: u64,
    upload_pass_end: usize,
    drawn_ranges: FxHashMap<u64, DirtyRange>,
    command_vec_pool: Vec<Vec<Command>>,
    realloc_bytes: u64,
}

impl View for PassState {
    type V = PassStateView;

    closed spec fn view(&self) -> PassStateView {
        PassStateView {
            passes: self.passes@.map_values(|p: Pass| p@),
            closed: self.closed,
            color_texture: self.color_texture,
            color_srgb: self.color_srgb,
            color_msaa: self.color_msaa,
            color_msaa_srgb: self.color_msaa_srgb,
            color_sample_count: self.color_sample_count,
            color_subresource: self.color_subresource,
            color_size: self.color_size,
            color_logical_size: self.color_logical_size,
            color_format: self.color_format,
            color_scale: self.color_scale,
            extra: self.extra@,
            extra_present: self.extra_present@,
            extra_srgb: self.extra_srgb@,
            depth_texture: self.depth_texture,
            depth_level: self.depth_level,
            depth_size: self.depth_size,
            depth_sample_count: self.depth_sample_count,
            attachments: self.attachments,
            pending_color_clear: self.pending_color_clear,
            pending_depth_clear: self.pending_depth_clear,
            pending_stencil_clear: self.pending_stencil_clear,
            game_viewport: self.game_viewport,
            min_z: self.min_z,
            max_z: self.max_z,
            last_emitted_viewport: self.last_emitted_viewport,
            pending_leading_blits: self.pending_leading_blits@,
            seen_color: self.seen_color@,
            seen_depth: self.seen_depth@,
            segment_color: self.segment_color@,
            segment_depth: self.segment_depth@,
            blit_written: self.blit_written@,
            backbuffer: self.backbuffer,
            backbuffer_logical_size: self.backbuffer_logical_size,
            render_scale: self.render_scale,
            ever_sampled: self.ever_sampled@,
            frame_sampled: self.frame_sampled@,
            twin_to_base: self.twin_to_base@,
            base_to_twin: self.base_to_twin@,
            srgb_write_enabled: self.srgb_write_enabled,
            pass_srgb_write: self.pass_srgb_write,
            sampleable_depth: self.sampleable_depth@,
            cascade_probe: self.cascade_probe,
            caster_writes: self.caster_writes@,
            cascade_samples: self.cascade_samples@,
            frame_seq: self.frame_seq,
            upload_pass_end: self.upload_pass_end,
            drawn_ranges: self.drawn_ranges@,
            pooled: self.command_vec_pool@.len(),
        }
    }
}

impl PassState {
    /// Bytes that growing command vectors copied since the last reading.
    pub closed spec fn realloc_bytes(&self) -> u64 {
        self.realloc_bytes
    }
}

} // verus!
