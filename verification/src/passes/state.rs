//! Frames: starting one, handing its passes over, and reading the state.

use super::attachment::{
    CurrentAttachmentFlags, ExtraColorAttachments, ExtraColorSlot, FrameReset, PassColorAttachment,
};
use super::model::{in_bounds, target_mask, PassStateView, PassView};
use super::{
    ColorLoad, DepthLoad, Pass, PassState, Rect, StencilLoad, StoreAction, MAX_CMD_VEC_POOL,
};
use crate::fx::{map_get, map_insert, map_remove, set_contains};
use crate::metal::{
    BlitCommand, Command, DepthResolveFilter, DirtyRange, PixelFormat, RenderScale, F32_ONE,
};
use rustc_hash::{FxHashMap, FxHashSet};
use vstd::prelude::*;

verus! {

/// Three flags as a mask, entry `i` as bit `i`.
fn mask_of(present: &[bool; 3]) -> (r: u8)
    ensures
        r == target_mask(present@),
{
    (if present[0] {
        1u8
    } else {
        0
    }) + (if present[1] {
        2u8
    } else {
        0
    }) + (if present[2] {
        4u8
    } else {
        0
    })
}

/// `Vec::capacity`, how many commands fit before the vector grows: never fewer than it holds.
/// What the allocator gave beyond that is not stated.
#[verifier::external_body]
pub(super) fn command_capacity(v: &Vec<Command>) -> (r: usize)
    ensures
        r >= v@.len(),
{
    v.capacity()
}

impl Pass {
    /// The identity of render target 0.
    pub fn color_texture(&self) -> (r: u64)
        ensures
            r == self@.color.texture,
    {
        self.color.texture
    }

    /// The texture attached as render target 0.
    pub fn color_attachment_texture(&self) -> (r: u64)
        ensures
            r == self@.color.attachment_texture_spec(),
    {
        self.color.attachment_texture()
    }

    /// The view render target 0 resolves into, zero for none.
    pub fn color_resolve_texture(&self) -> (r: u64)
        ensures
            r == self@.color.resolve_texture,
    {
        self.color.resolve_texture
    }

    /// The view a resolve of render target 0 would write.
    pub fn color_resolve_view(&self) -> (r: u64)
        ensures
            r == self@.color.resolve_view_spec(),
    {
        self.color.resolve_view()
    }

    /// Render targets 1 to 3.
    pub fn extra_color(&self) -> (r: &[PassColorAttachment; 3])
        ensures
            r@ == self@.extra,
    {
        &self.extra_color
    }

    /// Bit `i` is set when render target `i + 1` is attached.
    pub fn extra_present_mask(&self) -> (r: u8)
        ensures
            r == target_mask(
                self@.extra.map_values(|a: PassColorAttachment| a.is_bound_spec()),
            ),
    {
        let present: [bool; 3] = [
            self.extra_color[0].is_bound(),
            self.extra_color[1].is_bound(),
            self.extra_color[2].is_bound(),
        ];
        assert(present@ =~= self@.extra.map_values(|a: PassColorAttachment| a.is_bound_spec()));
        mask_of(&present)
    }

    /// The load action of colour slot `slot`.
    pub fn color_load_of(&self, slot: usize) -> (r: ColorLoad)
        requires
            slot < 4,
        ensures
            r == self@.color_at(slot as int).load,
    {
        if slot == 0 {
            self.color.load
        } else {
            self.extra_color[slot - 1].load
        }
    }

    /// Sets the store action of colour slot `slot`.
    pub fn set_color_store_of(&mut self, slot: usize, store: StoreAction)
        requires
            slot < 4,
        ensures
            final(self)@ == old(self)@.with_color_at(
                slot as int,
                (PassColorAttachment { store, ..old(self)@.color_at(slot as int) }),
            ),
    {
        if slot == 0 {
            self.color.store = store;
        } else {
            self.extra_color[slot - 1].store = store;
        }
    }

    /// The array slice of render target 0.
    pub fn color_slice(&self) -> (r: u32)
        ensures
            r == self@.color.subresource & 0xff,
    {
        self.color.subresource & 0xff
    }

    /// The mip level of render target 0.
    pub fn color_level(&self) -> (r: u32)
        ensures
            r == self@.color.subresource >> 8,
    {
        self.color.subresource >> 8
    }

    pub fn color_size(&self) -> (r: (u32, u32))
        ensures
            r == self@.color.size,
    {
        self.color.size
    }

    pub fn color_format(&self) -> (r: PixelFormat)
        ensures
            r == self@.color.format,
    {
        self.color.format
    }

    pub fn depth_texture(&self) -> (r: u64)
        ensures
            r == self@.depth_texture,
    {
        self.depth_texture
    }

    pub fn depth_level(&self) -> (r: u32)
        ensures
            r == self@.depth_level,
    {
        self.depth_level
    }

    pub fn color_load(&self) -> (r: ColorLoad)
        ensures
            r == self@.color.load,
    {
        self.color.load
    }

    pub fn color_store(&self) -> (r: StoreAction)
        ensures
            r == self@.color.store,
    {
        self.color.store
    }

    pub fn depth_load(&self) -> (r: DepthLoad)
        ensures
            r == self@.depth_load,
    {
        self.depth_load
    }

    pub fn stencil_load(&self) -> (r: StencilLoad)
        ensures
            r == self@.stencil_load,
    {
        self.stencil_load
    }

    pub fn depth_store(&self) -> (r: StoreAction)
        ensures
            r == self@.depth_store,
    {
        self.depth_store
    }

    /// The texture a depth resolve writes, zero for none.
    pub fn depth_resolve_texture(&self) -> (r: u64)
        ensures
            r == self@.depth_resolve_texture,
    {
        self.depth_resolve_texture
    }

    pub fn depth_resolve_filter(&self) -> (r: DepthResolveFilter)
        ensures
            r == self@.depth_resolve_filter,
    {
        self.depth_resolve_filter
    }

    pub fn viewport(&self) -> (r: Rect)
        ensures
            r == self@.viewport,
    {
        self.viewport
    }

    /// The commands, in the order they were recorded.
    pub fn commands(&self) -> (r: &[Command])
        ensures
            r@ == self@.commands,
    {
        self.list.commands.as_slice()
    }

    /// The blits that run before the pass.
    pub fn leading_blits(&self) -> (r: &[BlitCommand])
        ensures
            r@ == self@.leading_blits,
    {
        self.leading_blits.as_slice()
    }

    pub fn has_counting_visibility(&self) -> (r: bool)
        ensures
            r == self@.has_counting_visibility,
    {
        self.has_counting_visibility
    }

    pub fn color_writes_observed(&self) -> (r: bool)
        ensures
            r == self@.color_writes_observed,
    {
        self.color_writes_observed
    }

    /// The command ranges that paint colour clears. None is empty, and none ends behind the
    /// commands.
    pub fn color_clear_quad_ranges(&self) -> (r: &[(usize, usize)])
        ensures
            r@ == self@.quad_ranges,
            in_bounds(r@, self@.commands.len()),
    {
        proof {
            use_type_invariant(&self.list);
        }
        self.list.color_clear_quad_ranges.as_slice()
    }
}

impl PassState {
    /// A state that never saw a frame.
    pub fn new() -> (r: PassState)
        ensures
            r@.is_initial(),
            r.realloc_bytes() == 0,
    {
        let none: ExtraColorSlot = ExtraColorSlot::none();
        let r = PassState {
            passes: Vec::with_capacity(4),
            closed: true,
            color_texture: 0,
            color_srgb: 0,
            color_msaa: 0,
            color_msaa_srgb: 0,
            color_sample_count: 1,
            color_subresource: 0,
            color_size: (0, 0),
            color_logical_size: (0, 0),
            color_format: PixelFormat::Bgra8Unorm,
            color_scale: RenderScale::identity(),
            extra: [none, none, none],
            extra_present: [false, false, false],
            extra_srgb: [0, 0, 0],
            depth_texture: 0,
            depth_level: 0,
            depth_size: (0, 0),
            depth_sample_count: 1,
            attachments: CurrentAttachmentFlags {
                color_has_alpha: true,
                depth_sampleable: false,
                depth_has_stencil: false,
            },
            pending_color_clear: None,
            pending_depth_clear: None,
            pending_stencil_clear: None,
            game_viewport: (0, 0, 0, 0),
            min_z: 0,
            max_z: F32_ONE,
            last_emitted_viewport: None,
            pending_leading_blits: Vec::new(),
            seen_color: FxHashSet::default(),
            seen_depth: FxHashSet::default(),
            segment_color: FxHashSet::default(),
            segment_depth: FxHashSet::default(),
            blit_written: FxHashSet::default(),
            backbuffer: 0,
            backbuffer_logical_size: (0, 0),
            render_scale: RenderScale::identity(),
            ever_sampled: FxHashSet::default(),
            frame_sampled: FxHashSet::default(),
            twin_to_base: FxHashMap::default(),
            base_to_twin: FxHashMap::default(),
            srgb_write_enabled: false,
            pass_srgb_write: false,
            sampleable_depth: FxHashSet::default(),
            cascade_probe: false,
            caster_writes: FxHashMap::default(),
            cascade_samples: FxHashMap::default(),
            frame_seq: 0,
            upload_pass_end: 0,
            drawn_ranges: FxHashMap::default(),
            command_vec_pool: Vec::with_capacity(MAX_CMD_VEC_POOL),
            realloc_bytes: 0,
        };
        assert(r@.passes =~= Seq::<PassView>::empty());
        assert(r@.extra =~= PassStateView::no_extras());
        assert(r@.extra_present =~= Seq::new(3, |i: int| false));
        assert(r@.extra_srgb =~= Seq::new(3, |i: int| 0u64));
        r
    }

    /// Whether every view has its three entries.
    pub proof fn lemma_shaped(&self)
        ensures
            self@.shaped(),
    {
    }

    /// An empty command vector, a pooled one where there is one.
    pub(super) fn take_command_vec(&mut self) -> (r: Vec<Command>)
        ensures
            r@ == Seq::<Command>::empty(),
            final(self)@ == (PassStateView { pooled: old(self)@.pool_after_pop(), ..old(self)@ }),
            final(self).realloc_bytes() == old(self).realloc_bytes(),
    {
        match self.command_vec_pool.pop() {
            Some(mut v) => {
                v.clear();
                v
            },
            None => Vec::with_capacity(64),
        }
    }

    /// Empties a list of passes into the pool of command vectors.
    fn recycle(&mut self, passes: &mut Vec<Pass>)
        ensures
            final(passes)@ == Seq::<Pass>::empty(),
            final(self)@ == (PassStateView {
                pooled: PassStateView::pool_after_push(old(self)@.pooled, old(passes)@.len()),
                ..old(self)@
            }),
            final(self).realloc_bytes() == old(self).realloc_bytes(),
    {
        let ghost before = self@;
        let ghost n = passes@.len();
        while passes.len() > 0
            invariant
                passes@.len() <= n,
                self@ == (PassStateView {
                    pooled: PassStateView::pool_after_push(
                        before.pooled,
                        (n - passes@.len()) as nat,
                    ),
                    ..before
                }),
                self.realloc_bytes() == old(self).realloc_bytes(),
            decreases passes@.len(),
        {
            if let Some(pass) = passes.pop() {
                if self.command_vec_pool.len() < MAX_CMD_VEC_POOL {
                    let mut commands: Vec<Command> = pass.list.commands;
                    commands.clear();
                    self.command_vec_pool.push(commands);
                }
            }
        }
    }

    /// Starts a frame: the back buffer and its depth surface are bound, nothing is pending,
    /// and the passes of the last frame are gone. The game's viewport stays, and so does
    /// what was ever sampled; what was used in the frame stays when the frame continues.
    pub fn reset_frame(&mut self, reset: &FrameReset)
        ensures
            final(self)@ == old(self)@.frame_started(*reset),
            final(self).realloc_bytes() == 0,
    {
        let ghost start = self@;
        let mut retired: Vec<Pass> = Vec::new();
        core::mem::swap(&mut self.passes, &mut retired);
        self.recycle(&mut retired);
        core::mem::swap(&mut self.passes, &mut retired);
        let none: ExtraColorSlot = ExtraColorSlot::none();
        let count: u8 = if reset.backbuffer_sample_count == 0 {
            1
        } else {
            reset.backbuffer_sample_count
        };
        self.upload_pass_end = 0;
        self.closed = true;
        self.last_emitted_viewport = None;
        self.render_scale = reset.render_scale;
        self.color_scale = reset.render_scale;
        self.color_logical_size = reset.backbuffer_size;
        self.backbuffer_logical_size = reset.backbuffer_size;
        self.color_texture = reset.backbuffer;
        self.color_msaa = reset.backbuffer_msaa;
        self.color_msaa_srgb = reset.backbuffer_msaa_srgb;
        self.color_sample_count = count;
        self.depth_sample_count = count;
        self.color_subresource = 0;
        self.color_size = (
            reset.render_scale.dimension(reset.backbuffer_size.0),
            reset.render_scale.dimension(reset.backbuffer_size.1),
        );
        self.color_format = reset.backbuffer_format;
        self.extra = [none, none, none];
        self.extra_present = [false, false, false];
        if self.backbuffer != reset.backbuffer {
            let stale: u64 = self.twin_of(self.backbuffer);
            self.drop_srgb_twin(stale);
        }
        self.store_srgb_twin(reset.backbuffer_srgb, reset.backbuffer);
        self.attachments = CurrentAttachmentFlags {
            color_has_alpha: true,
            depth_sampleable: false,
            depth_has_stencil: reset.depth_has_stencil,
        };
        self.depth_texture = reset.depth_texture;
        self.depth_level = 0;
        self.depth_size = reset.depth_size;
        self.backbuffer = reset.backbuffer;
        self.pending_color_clear = None;
        self.pending_depth_clear = None;
        self.pending_stencil_clear = None;
        self.pending_leading_blits.clear();
        if !reset.continues_frame {
            self.seen_color.clear();
            self.seen_depth.clear();
        }
        self.segment_color.clear();
        self.segment_depth.clear();
        self.blit_written.clear();
        self.caster_writes.clear();
        self.cascade_samples.clear();
        self.frame_sampled.clear();
        self.drawn_ranges.clear();
        self.frame_seq = self.frame_seq.wrapping_add(1);
        self.realloc_bytes = 0;
        self.recompute_srgb_write();
        assert(self@ =~= start.frame_started(*reset));
    }

    /// The passes recorded so far.
    pub fn passes(&self) -> (r: &[Pass])
        ensures
            r@.len() == self@.passes.len(),
            forall|i: int| 0 <= i < r@.len() ==> (#[trigger] r@[i])@ == self@.passes[i],
    {
        self.passes.as_slice()
    }

    /// Hands the recorded passes over.
    pub fn take_finished_passes(&mut self) -> (r: Vec<Pass>)
        ensures
            r@.len() == old(self)@.passes.len(),
            forall|i: int| 0 <= i < r@.len() ==> (#[trigger] r@[i])@ == old(self)@.passes[i],
            final(self)@ == (PassStateView { passes: Seq::empty(), ..old(self)@ }),
            final(self).realloc_bytes() == old(self).realloc_bytes(),
    {
        let mut r: Vec<Pass> = Vec::new();
        core::mem::swap(&mut self.passes, &mut r);
        assert(self@.passes =~= Seq::<PassView>::empty());
        r
    }

    /// Takes passes back when their commands are no longer needed.
    pub fn recycle_passes(&mut self, passes: &mut Vec<Pass>)
        ensures
            final(passes)@ == Seq::<Pass>::empty(),
            final(self)@ == (PassStateView {
                pooled: PassStateView::pool_after_push(old(self)@.pooled, old(passes)@.len()),
                ..old(self)@
            }),
            final(self).realloc_bytes() == old(self).realloc_bytes(),
    {
        self.recycle(passes);
    }

    /// The index of the last pass, zero when there is none.
    pub fn current_pass_index(&self) -> (r: usize)
        ensures
            r == (if self@.passes.len() == 0 {
                0
            } else {
                self@.passes.len() - 1
            }),
    {
        if self.passes.len() == 0 {
            0
        } else {
            self.passes.len() - 1
        }
    }

    /// Whether the last pass is closed.
    pub fn current_pass_closed(&self) -> (r: bool)
        ensures
            r == self@.closed,
    {
        self.closed
    }

    /// Notes that a draw of this frame reads `size` bytes of buffer `id` from `offset` on,
    /// or all of them up to `logical_len` when `size` is zero.
    pub fn note_draw_range(&mut self, id: u64, offset: u32, size: u32, logical_len: u32)
        ensures
            final(self)@ == (PassStateView {
                drawn_ranges: old(self)@.drawn_ranges.insert(
                    id,
                    (if old(self)@.drawn_ranges.contains_key(id) {
                        old(self)@.drawn_ranges[id]
                    } else {
                        DirtyRange { start: 0, end: 0 }
                    }).conjoin_spec(offset, size, logical_len),
                ),
                ..old(self)@
            }),
            final(self).realloc_bytes() == old(self).realloc_bytes(),
    {
        let mut range: DirtyRange = match map_get(&self.drawn_ranges, id) {
            Some(r) => r,
            None => DirtyRange::empty(),
        };
        range.conjoin(offset, size, logical_len);
        map_insert(&mut self.drawn_ranges, id, range);
    }

    /// Whether a draw of this frame read some of `[off, end)` of buffer `id`, going by the
    /// smallest range that covers everything noted.
    pub fn drawn_range_overlaps(&self, id: u64, off: u32, end: u32) -> (r: bool)
        ensures
            r == (self@.drawn_ranges.contains_key(id) && self@.drawn_ranges[id].overlaps_spec(
                off,
                end,
            )),
    {
        match map_get(&self.drawn_ranges, id) {
            Some(r) => r.overlaps(off, end),
            None => false,
        }
    }

    /// Forgets what draws read of buffer `id`.
    pub fn clear_drawn_range(&mut self, id: u64)
        ensures
            final(self)@ == (PassStateView {
                drawn_ranges: old(self)@.drawn_ranges.remove(id),
                ..old(self)@
            }),
            final(self).realloc_bytes() == old(self).realloc_bytes(),
    {
        let _ = map_remove(&mut self.drawn_ranges, id);
    }

    pub fn current_color_texture(&self) -> (r: u64)
        ensures
            r == self@.color_texture,
    {
        self.color_texture
    }

    pub fn current_depth_texture(&self) -> (r: u64)
        ensures
            r == self@.depth_texture,
    {
        self.depth_texture
    }

    pub fn current_depth_size(&self) -> (r: (u32, u32))
        ensures
            r == self@.depth_size,
    {
        self.depth_size
    }

    pub fn current_depth_has_stencil(&self) -> (r: bool)
        ensures
            r == self@.attachments.depth_has_stencil,
    {
        self.attachments.depth_has_stencil
    }

    pub fn current_depth_is_sampleable(&self) -> (r: bool)
        ensures
            r == self@.attachments.depth_sampleable,
    {
        self.attachments.depth_sampleable
    }

    /// Whether a live texture was ever bound as sampleable depth.
    pub fn is_depth_handle_sampleable(&self, depth_tex: u64) -> (r: bool)
        ensures
            r == self@.sampleable_depth.contains(depth_tex),
    {
        set_contains(&self.sampleable_depth, depth_tex)
    }

    /// The pixel format of the view the next pass attaches as render target 0.
    pub fn current_color_format(&self) -> (r: PixelFormat)
        ensures
            r == self@.color_attachment_format(),
    {
        self.color_attachment_format()
    }

    pub fn current_color_sample_count(&self) -> (r: u8)
        ensures
            r == self@.color_sample_count,
    {
        self.color_sample_count
    }

    pub fn current_depth_sample_count(&self) -> (r: u8)
        ensures
            r == self@.depth_sample_count,
    {
        self.depth_sample_count
    }

    /// Whether the next pass carries the bound depth attachment.
    pub fn pass_binds_depth(&self) -> (r: bool)
        ensures
            r == self@.binds_depth(),
    {
        self.depth_texture != 0 && self.depth_sample_count == self.color_sample_count
    }

    pub fn current_color_rt_has_alpha(&self) -> (r: bool)
        ensures
            r == self@.attachments.color_has_alpha,
    {
        self.attachments.color_has_alpha
    }

    /// Render targets 1 to 3 as the next pass attaches them.
    pub fn extra_color_attachments(&self) -> (r: ExtraColorAttachments)
        ensures
            r.formats@ == Seq::new(3, |i: int| self@.extra_attachment_format(i)),
            r.present_mask == target_mask(self@.extra_present),
            r.has_alpha_mask == target_mask(
                Seq::new(3, |i: int| self@.extra[i].has_alpha && self@.extra_present[i]),
            ),
    {
        let alpha: [bool; 3] = [
            self.extra[0].has_alpha && self.extra_present[0],
            self.extra[1].has_alpha && self.extra_present[1],
            self.extra[2].has_alpha && self.extra_present[2],
        ];
        let formats: [PixelFormat; 3] = [
            self.extra_attachment_format(0),
            self.extra_attachment_format(1),
            self.extra_attachment_format(2),
        ];
        assert(formats@ =~= Seq::new(3, |i: int| self@.extra_attachment_format(i)));
        assert(alpha@ =~= Seq::new(3, |i: int| self@.extra[i].has_alpha && self@.extra_present[i]));
        ExtraColorAttachments {
            formats,
            present_mask: mask_of(&self.extra_present),
            has_alpha_mask: mask_of(&alpha),
        }
    }

    /// Bit `i` is set when render target `i + 1` takes part in the next pass.
    pub fn extra_present_mask(&self) -> (r: u8)
        ensures
            r == target_mask(self@.extra_present),
    {
        mask_of(&self.extra_present)
    }

    /// Whether any of render targets 1 to 3 is bound.
    pub fn has_extra_color_targets(&self) -> (r: bool)
        ensures
            r == self@.has_extras(),
    {
        assert(self@.extra[0] == self.extra[0] && self@.extra[1] == self.extra[1] && self@.extra[2]
            == self.extra[2]);
        self.extra[0].is_bound() || self.extra[1].is_bound() || self.extra[2].is_bound()
    }

    /// Whether some bound target 1 to 3 takes no part in the next pass.
    pub fn has_extra_color_targets_outside_pass(&self) -> (r: bool)
        ensures
            r == (exists|i: int|
                0 <= i < 3 && (#[trigger] self@.extra[i]).is_bound_spec()
                    && !self@.extra_present[i]),
    {
        assert(self@.extra[0] == self.extra[0] && self@.extra[1] == self.extra[1] && self@.extra[2]
            == self.extra[2]);
        (self.extra[0].is_bound() && !self.extra_present[0]) || (self.extra[1].is_bound()
            && !self.extra_present[1]) || (self.extra[2].is_bound() && !self.extra_present[2])
    }

    /// Whether the next pass writes through sRGB views.
    pub fn pass_srgb_write(&self) -> (r: bool)
        ensures
            r == self@.pass_srgb_write,
    {
        self.pass_srgb_write
    }

    pub fn texture_sampled_this_frame(&self, handle: u64) -> (r: bool)
        ensures
            r == self@.frame_sampled.contains(handle),
    {
        set_contains(&self.frame_sampled, handle)
    }

    pub fn current_color_size(&self) -> (r: (u32, u32))
        ensures
            r == self@.color_size,
    {
        self.color_size
    }

    pub fn current_color_logical_size(&self) -> (r: (u32, u32))
        ensures
            r == self@.color_logical_size,
    {
        self.color_logical_size
    }

    pub fn pending_color_clear(&self) -> (r: Option<(u32, u32, u32, u32)>)
        ensures
            r == self@.pending_color_clear,
    {
        self.pending_color_clear
    }

    pub fn pending_depth_clear(&self) -> (r: Option<u32>)
        ensures
            r == self@.pending_depth_clear,
    {
        self.pending_depth_clear
    }

    /// The viewport as the game set it.
    pub fn viewport(&self) -> (r: Rect)
        ensures
            r == self@.game_viewport,
    {
        self.game_viewport
    }

    /// The depth range of the viewport, as IEEE bits.
    pub fn viewport_depth_range(&self) -> (r: (u32, u32))
        ensures
            r == (self@.min_z, self@.max_z),
    {
        (self.min_z, self.max_z)
    }

    /// The scale of the bound render target 0.
    pub fn target_scale(&self) -> (r: RenderScale)
        ensures
            r == self@.color_scale,
    {
        self.color_scale
    }

    /// The viewport in texels of the bound target.
    pub fn effective_viewport(&self) -> (r: Rect)
        ensures
            r == self@.effective_viewport(),
    {
        if self.game_viewport.2 != 0 && self.game_viewport.3 != 0 {
            self.color_scale.rect(
                self.game_viewport.0,
                self.game_viewport.1,
                self.game_viewport.2,
                self.game_viewport.3,
            )
        } else {
            (0, 0, self.color_size.0, self.color_size.1)
        }
    }

    /// Whether a clear of the viewport is a clear of all of render target 0.
    pub fn viewport_covers_color_attachment(&self) -> (r: bool)
        ensures
            r == self@.viewport_covers_color(),
    {
        if self.color_texture == 0 {
            return true;
        }
        let vp: Rect = self.effective_viewport();
        vp.0 == 0 && vp.1 == 0 && vp.2 >= self.color_size.0 && vp.3 >= self.color_size.1
    }

    /// Whether a clear of the viewport is a clear of all of the depth attachment.
    pub fn viewport_covers_depth_attachment(&self) -> (r: bool)
        ensures
            r == self@.viewport_covers_depth(),
    {
        if self.depth_texture == 0 {
            return true;
        }
        let vp: Rect = self.effective_viewport();
        vp.0 == 0 && vp.1 == 0 && vp.2 >= self.depth_size.0 && vp.3 >= self.depth_size.1
    }

    /// The scissor rectangle in texels: the game's while the test is on and it has an
    /// extent, else the viewport.
    pub fn resolved_scissor_rect(&self, test_enable: bool, rect: [u32; 4]) -> (r: Rect)
        ensures
            r == (if test_enable && rect[2] != 0 && rect[3] != 0 {
                self@.color_scale.rect_spec(rect[0], rect[1], rect[2], rect[3])
            } else {
                self@.effective_viewport()
            }),
    {
        if test_enable && rect[2] != 0 && rect[3] != 0 {
            self.color_scale.rect(rect[0], rect[1], rect[2], rect[3])
        } else {
            self.effective_viewport()
        }
    }

    /// Whether binding a target of this logical size and scale wastes the render scale: the
    /// scale is in force, the target is not scaled, and it is nearly as large as the back
    /// buffer in both directions.
    pub fn scale_wasted(&self, width: u32, height: u32, scale: RenderScale) -> (r: bool)
        ensures
            r == (self@.render_scale.percent_spec() != 100 && scale.percent_spec() == 100
                && self@.backbuffer_logical_size.0 != 0 && width * 100
                >= self@.backbuffer_logical_size.0 * 90 && self@.backbuffer_logical_size.1 != 0
                && height * 100 >= self@.backbuffer_logical_size.1 * 90),
    {
        if self.render_scale.is_identity() || !scale.is_identity() {
            return false;
        }
        let bw: u32 = self.backbuffer_logical_size.0;
        let bh: u32 = self.backbuffer_logical_size.1;
        bw != 0 && width as u64 * 100 >= bw as u64 * 90 && bh != 0 && height as u64 * 100 >= bh as u64
            * 90
    }

    /// Hands out the bytes that growing command vectors copied, and starts counting anew.
    pub fn take_cmd_vec_realloc_bytes(&mut self) -> (r: u64)
        ensures
            r == old(self).realloc_bytes(),
            final(self).realloc_bytes() == 0,
            final(self)@ == old(self)@,
    {
        let bytes: u64 = self.realloc_bytes;
        self.realloc_bytes = 0;
        bytes
    }
}

impl Default for PassState {
    fn default() -> (r: PassState)
        ensures
            r@.is_initial(),
    {
        PassState::new()
    }
}

} // verus!
