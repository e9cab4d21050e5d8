//! Opening passes and recording commands.

use super::attachment::{DepthResolve, PassColorAttachment, UploadPassTarget};
use super::model::{blit_written_texture_spec, PassStateView, PassView};
use super::state::command_capacity;
use super::{ColorLoad, CommandList, DepthLoad, Pass, PassState, Rect, StencilLoad, StoreAction};
use crate::fx::{
    map_get, map_insert, set_contains, set_insert, sub_contains, sub_insert,
};
use crate::metal::{
    BlitCommand, BlitCommandType, Command, CommandType, DepthResolveFilter, F32_ONE,
    VISIBILITY_COUNTING,
};
use vstd::prelude::*;

verus! {

impl PassState {
    fn color_load_for(&self, vp: Rect, texture: u64, subresource: u32) -> (r: ColorLoad)
        requires
            vp == self@.effective_viewport(),
        ensures
            r == self@.color_load_for(texture, subresource),
    {
        match self.pending_color_clear {
            Some(c) => ColorLoad::Clear { r: c.0, g: c.1, b: c.2, a: c.3 },
            None => {
                let covers: bool = vp.0 == 0 && vp.1 == 0 && vp.2 == self.color_size.0 && vp.3
                    == self.color_size.1;
                if covers && texture != 0 && !sub_contains(
                    &self.seen_color,
                    (texture, subresource),
                ) && !set_contains(&self.ever_sampled, texture) && !set_contains(
                    &self.blit_written,
                    texture,
                ) {
                    ColorLoad::DontCare
                } else {
                    ColorLoad::Load
                }
            },
        }
    }

    fn next_extra(&self, vp: Rect, i: usize) -> (r: PassColorAttachment)
        requires
            i < 3,
            vp == self@.effective_viewport(),
        ensures
            r == self@.next_extra(i as int),
    {
        if !self.extra_present[i] {
            return PassColorAttachment::none();
        }
        PassColorAttachment {
            texture: self.extra[i].texture,
            srgb_texture: if self.pass_srgb_write {
                self.extra_srgb[i]
            } else {
                0
            },
            msaa_texture: self.extra[i].msaa_texture,
            msaa_srgb_texture: if self.pass_srgb_write {
                self.extra[i].msaa_srgb_texture
            } else {
                0
            },
            resolve_texture: 0,
            subresource: self.extra[i].subresource,
            size: self.extra[i].size,
            format: self.extra_attachment_format(i),
            load: self.color_load_for(vp, self.extra[i].texture, self.extra[i].subresource),
            store: StoreAction::Store,
        }
    }

    /// Notes a colour attachment as used.
    fn note_color_use(&mut self, a: &PassColorAttachment)
        ensures
            final(self)@ == (if a.is_bound_spec() {
                PassStateView {
                    seen_color: old(self)@.seen_color.insert((a.texture, a.subresource)),
                    segment_color: old(self)@.segment_color.insert((a.texture, a.subresource)),
                    ..old(self)@
                }
            } else {
                old(self)@
            }),
            final(self).realloc_bytes() == old(self).realloc_bytes(),
    {
        if a.is_bound() {
            let _ = sub_insert(&mut self.seen_color, (a.texture, a.subresource));
            let _ = sub_insert(&mut self.segment_color, (a.texture, a.subresource));
        }
    }

    /// Opens a pass unless one is open. It starts with the clears, blits and attachments of
    /// the moment, and its first command sets the viewport.
    #[verifier::rlimit(50)]
    #[verifier::spinoff_prover]
    pub fn ensure_pass_open(&mut self)
        ensures
            final(self)@ == old(self)@.opened(),
            final(self)@.is_open(),
            final(self).realloc_bytes() == old(self).realloc_bytes(),
    {
        if !self.closed && self.passes.len() > 0 {
            return;
        }
        let ghost start = self@;
        let vp: Rect = self.effective_viewport();
        let color: PassColorAttachment = PassColorAttachment {
            texture: self.color_texture,
            srgb_texture: if self.pass_srgb_write {
                self.color_srgb
            } else {
                0
            },
            msaa_texture: self.color_msaa,
            msaa_srgb_texture: if self.pass_srgb_write {
                self.color_msaa_srgb
            } else {
                0
            },
            resolve_texture: 0,
            subresource: self.color_subresource,
            size: self.color_size,
            format: self.color_attachment_format(),
            load: self.color_load_for(vp, self.color_texture, self.color_subresource),
            store: StoreAction::Store,
        };
        let extra_color: [PassColorAttachment; 3] = [
            self.next_extra(vp, 0),
            self.next_extra(vp, 1),
            self.next_extra(vp, 2),
        ];
        let depth_texture: u64 = if self.pass_binds_depth() {
            self.depth_texture
        } else {
            0
        };
        let depth_first_use: bool = self.viewport_covers_depth_attachment() && depth_texture != 0
            && !self.attachments.depth_sampleable && !set_contains(&self.seen_depth, depth_texture)
            && !set_contains(&self.ever_sampled, depth_texture) && !set_contains(
            &self.blit_written,
            depth_texture,
        );
        let depth_load: DepthLoad = match self.pending_depth_clear {
            Some(value) => DepthLoad::Clear { value },
            None => if depth_first_use {
                DepthLoad::DontCare
            } else {
                DepthLoad::Load
            },
        };
        let stencil_load: StencilLoad = match self.pending_stencil_clear {
            Some(value) => StencilLoad::Clear { value },
            None => if depth_first_use {
                StencilLoad::DontCare
            } else {
                StencilLoad::Load
            },
        };
        let mut leading_blits: Vec<BlitCommand> = Vec::new();
        core::mem::swap(&mut self.pending_leading_blits, &mut leading_blits);
        self.pending_color_clear = None;
        self.pending_depth_clear = None;
        self.pending_stencil_clear = None;
        self.note_color_use(&color);
        self.note_color_use(&extra_color[0]);
        self.note_color_use(&extra_color[1]);
        self.note_color_use(&extra_color[2]);
        if depth_texture != 0 {
            let _ = set_insert(&mut self.seen_depth, depth_texture);
            let _ = set_insert(&mut self.segment_depth, depth_texture);
        }
        let mut commands: Vec<Command> = self.take_command_vec();
        commands.push(Command::set_viewport(vp.0, vp.1, vp.2, vp.3, self.min_z, self.max_z));
        let pass: Pass = Pass {
            color,
            extra_color,
            depth_texture,
            depth_level: self.depth_level,
            depth_load,
            stencil_load,
            depth_store: StoreAction::Store,
            depth_resolve_texture: 0,
            depth_resolve_filter: DepthResolveFilter::Sample0,
            viewport: vp,
            list: CommandList::new(commands),
            leading_blits,
            has_counting_visibility: false,
            depth_is_sampleable: self.attachments.depth_sampleable,
            color_writes_observed: false,
        };
        let ghost p = pass@;
        assert(p =~= start.next_pass());
        self.last_emitted_viewport = Some((vp, self.min_z, self.max_z));
        self.passes.push(pass);
        self.closed = false;
        proof {
            assert(p.color_at(0) == color && p.color_at(1) == extra_color[0] && p.color_at(2)
                == extra_color[1] && p.color_at(3) == extra_color[2]);
            assert(self@.seen_color =~= PassStateView::with_colors_of(start.seen_color, p));
            assert(self@.segment_color =~= PassStateView::with_colors_of(start.segment_color, p));
            assert(self@ =~= start.opened());
        }
    }

    /// Closes the open pass; the next command opens another.
    pub fn end_current_pass(&mut self)
        ensures
            final(self)@ == old(self)@.ended(),
            final(self).realloc_bytes() == old(self).realloc_bytes(),
    {
        if self.passes.len() > 0 && !self.closed {
            self.closed = true;
        }
    }

    /// Gives waiting clears a pass of their own on the attachments bound now.
    pub fn flush_pending_clears(&mut self)
        ensures
            final(self)@ == old(self)@.flushed(),
            final(self).realloc_bytes() == old(self).realloc_bytes(),
    {
        if self.pending_color_clear.is_some() || self.pending_depth_clear.is_some()
            || self.pending_stencil_clear.is_some() {
            self.ensure_pass_open();
            self.end_current_pass();
        }
    }

    /// Opens a pass and notes whether a draw in it writes colour.
    pub fn note_draw_color_write_mask(&mut self, mask: u32)
        ensures
            final(self)@ == (if mask != 0 {
                old(self)@.opened().with_last(
                    PassView { color_writes_observed: true, ..old(self)@.opened().passes.last() },
                )
            } else {
                old(self)@.opened()
            }),
            final(self).realloc_bytes() == old(self).realloc_bytes(),
    {
        self.ensure_pass_open();
        if mask != 0 {
            let last: usize = self.passes.len() - 1;
            self.passes[last].color_writes_observed = true;
        }
    }

    /// The command index at which a painted colour clear begins; a pass is open afterwards.
    pub fn open_color_clear_quad_block(&mut self) -> (r: usize)
        ensures
            final(self)@ == old(self)@.opened(),
            r == final(self)@.passes.last().commands.len(),
            final(self).realloc_bytes() == old(self).realloc_bytes(),
    {
        self.ensure_pass_open();
        let last: usize = self.passes.len() - 1;
        self.passes[last].list.commands.len()
    }

    /// Records the commands since `start` as a painted colour clear, unless there are none.
    pub fn close_color_clear_quad_block(&mut self, start: usize)
        ensures
            final(self)@ == old(self)@.quad_closed(start),
            final(self).realloc_bytes() == old(self).realloc_bytes(),
    {
        if self.passes.len() > 0 {
            let last: usize = self.passes.len() - 1;
            self.passes[last].list.mark_since(start);
        }
    }

    fn note_sampled(&mut self, texture: u64)
        ensures
            final(self)@ == (PassStateView {
                ever_sampled: old(self)@.sampled(old(self)@.ever_sampled, texture),
                frame_sampled: old(self)@.sampled(old(self)@.frame_sampled, texture),
                ..old(self)@
            }),
            final(self).realloc_bytes() == old(self).realloc_bytes(),
    {
        let _ = set_insert(&mut self.ever_sampled, texture);
        let _ = set_insert(&mut self.frame_sampled, texture);
        if let Some(base) = map_get(&self.twin_to_base, texture) {
            let _ = set_insert(&mut self.ever_sampled, base);
            let _ = set_insert(&mut self.frame_sampled, base);
        }
    }

    /// Records a command, in a new pass if none is open. A texture bound for fragment
    /// sampling counts as read. The bytes that a growing command vector copies are added up;
    /// how much room it has before that is the allocator's affair.
    pub fn emit_command(&mut self, cmd: Command)
        ensures
            final(self)@ == old(self)@.emitted(cmd),
            exists|room: usize|
                grew(
                    old(self).realloc_bytes(),
                    final(self).realloc_bytes(),
                    old(self)@.opened().passes.last().commands.len(),
                    room,
                ),
    {
        self.ensure_pass_open();
        if cmd.cmd == CommandType::SetFragmentTexture && cmd.param_b != 0 {
            self.note_sampled(cmd.param_b);
            self.count_cascade_sample(cmd.param_b);
        }
        self.push_command(cmd);
    }

    /// Counts a bind of a texture that is known to be sampleable depth, while the counters
    /// are on.
    fn count_cascade_sample(&mut self, tex: u64)
        ensures
            final(self)@ == (PassStateView {
                cascade_samples: if old(self)@.cascade_probe && old(self)@.sampleable_depth.contains(
                    tex,
                ) {
                    PassStateView::counted(old(self)@.cascade_samples, tex)
                } else {
                    old(self)@.cascade_samples
                },
                ..old(self)@
            }),
            final(self).realloc_bytes() == old(self).realloc_bytes(),
    {
        if self.cascade_probe && set_contains(&self.sampleable_depth, tex) {
            let count: u32 = match map_get(&self.cascade_samples, tex) {
                Some(c) => c,
                None => 0,
            };
            map_insert(&mut self.cascade_samples, tex, count.wrapping_add(1));
        }
    }

    /// Appends a command to the last pass.
    fn push_command(&mut self, cmd: Command)
        requires
            old(self)@.passes.len() > 0,
        ensures
            final(self)@ == old(self)@.with_last(
                PassView {
                    commands: old(self)@.passes.last().commands.push(cmd),
                    has_counting_visibility: old(self)@.passes.last().has_counting_visibility || (
                    cmd.cmd == CommandType::SetVisibilityResultMode && cmd.param_a
                        == VISIBILITY_COUNTING),
                    ..old(self)@.passes.last()
                },
            ),
            exists|room: usize|
                grew(
                    old(self).realloc_bytes(),
                    final(self).realloc_bytes(),
                    old(self)@.passes.last().commands.len(),
                    room,
                ),
    {
        let last: usize = self.passes.len() - 1;
        let counts: bool = cmd.cmd == CommandType::SetVisibilityResultMode && cmd.param_a
            == VISIBILITY_COUNTING;
        let len: usize = self.passes[last].list.commands.len();
        let capacity: usize = command_capacity(&self.passes[last].list.commands);
        let grown: u64 = growth_bytes(len, capacity, core::mem::size_of::<Command>());
        if counts {
            self.passes[last].has_counting_visibility = true;
        }
        self.passes[last].list.push(cmd);
        self.realloc_bytes = self.realloc_bytes.saturating_add(grown);
        assert(grew(
            old(self).realloc_bytes(),
            self.realloc_bytes(),
            old(self)@.passes.last().commands.len(),
            capacity,
        ));
    }

    /// Splices a pass that draws uploaded texels in before every pass of the frame but the
    /// uploads before it.
    pub fn push_upload_pass(&mut self, target: &UploadPassTarget, commands: &[Command])
        requires
            old(self)@.upload_pass_end <= old(self)@.passes.len(),
        ensures
            final(self)@ == old(self)@.upload_pushed(*target, commands@),
            final(self).realloc_bytes() == old(self).realloc_bytes(),
    {
        let ghost start = self@;
        let rect: Rect = target.rect;
        let covers: bool = rect.0 == 0 && rect.1 == 0 && rect.2 == target.size.0 && rect.3
            == target.size.1;
        let load: ColorLoad = if covers {
            ColorLoad::DontCare
        } else {
            ColorLoad::Load
        };
        let subresource: u32 = target.subresource.0 | (target.subresource.1 << 8);
        let mut cmds: Vec<Command> = self.take_command_vec();
        cmds.push(Command::set_viewport(rect.0, rect.1, rect.2, rect.3, 0, F32_ONE));
        let mut i: usize = 0;
        while i < commands.len()
            invariant
                i <= commands@.len(),
                cmds@ =~= seq![
                    Command::set_viewport_spec(rect.0, rect.1, rect.2, rect.3, 0, F32_ONE),
                ] + commands@.take(i as int),
            decreases commands@.len() - i,
        {
            cmds.push(commands[i]);
            i += 1;
        }
        assert(commands@.take(i as int) =~= commands@);
        let none: PassColorAttachment = PassColorAttachment::none();
        let pass: Pass = Pass {
            color: PassColorAttachment {
                texture: target.texture,
                srgb_texture: 0,
                msaa_texture: 0,
                msaa_srgb_texture: 0,
                resolve_texture: 0,
                subresource,
                size: target.size,
                format: target.format,
                load,
                store: StoreAction::Store,
            },
            extra_color: [none, none, none],
            depth_texture: 0,
            depth_level: 0,
            depth_load: DepthLoad::DontCare,
            stencil_load: StencilLoad::DontCare,
            depth_store: StoreAction::DontCare,
            depth_resolve_texture: 0,
            depth_resolve_filter: DepthResolveFilter::Sample0,
            viewport: rect,
            list: CommandList::new(cmds),
            leading_blits: Vec::new(),
            has_counting_visibility: false,
            depth_is_sampleable: false,
            color_writes_observed: true,
        };
        assert(pass@ =~= PassStateView::upload_pass(*target, commands@));
        self.passes.insert(self.upload_pass_end, pass);
        assert(self.passes.len() == start.passes.len() + 1);
        self.upload_pass_end += 1;
        let _ = sub_insert(&mut self.seen_color, (target.texture, subresource));
        let _ = sub_insert(&mut self.segment_color, (target.texture, subresource));
        let _ = set_insert(&mut self.blit_written, target.texture);
        let _ = set_insert(&mut self.ever_sampled, target.texture);
        assert(self@ =~= start.upload_pushed(*target, commands@));
    }

    /// Queues a blit to run before the next pass. What it reads counts as sampled, and what
    /// it writes as written.
    pub fn push_pending_leading_blit(&mut self, blit: BlitCommand)
        ensures
            final(self)@ == old(self)@.blit_queued(blit),
            final(self).realloc_bytes() == old(self).realloc_bytes(),
    {
        if blit.cmd == BlitCommandType::CopyTextureToTexture && blit.src_handle != 0 {
            self.note_texture_read(blit.src_handle);
        }
        if let Some(dst) = blit_written_texture(&blit) {
            let _ = set_insert(&mut self.blit_written, dst);
        }
        self.pending_leading_blits.push(blit);
    }

    /// Hands out the blits that wait for a pass.
    pub fn take_pending_leading_blits(&mut self) -> (r: Vec<BlitCommand>)
        ensures
            r@ == old(self)@.pending_leading_blits,
            final(self)@ == (PassStateView { pending_leading_blits: Seq::empty(), ..old(self)@ }),
            final(self).realloc_bytes() == old(self).realloc_bytes(),
    {
        let mut r: Vec<BlitCommand> = Vec::new();
        core::mem::swap(&mut self.pending_leading_blits, &mut r);
        r
    }

    /// Sets the game's viewport. In an open pass it becomes a command, unless it changes
    /// nothing. The depth range is given as IEEE bits.
    pub fn set_viewport(&mut self, x: u32, y: u32, width: u32, height: u32, min_z: u32, max_z: u32)
        ensures
            final(self)@ == (PassStateView {
                game_viewport: (x, y, width, height),
                min_z,
                max_z,
                ..old(self)@
            }).viewport_emitted(old(self)@.color_scale.rect_spec(x, y, width, height)),
            final(self).realloc_bytes() == old(self).realloc_bytes(),
    {
        self.game_viewport = (x, y, width, height);
        self.min_z = min_z;
        self.max_z = max_z;
        let rect: Rect = self.color_scale.rect(x, y, width, height);
        self.emit_viewport_if_changed(rect);
    }

    /// Changes the depth range only.
    pub fn set_emitted_depth_range(&mut self, min_z: u32, max_z: u32)
        ensures
            final(self)@ == (PassStateView { min_z, max_z, ..old(self)@ }).viewport_emitted(
                old(self)@.effective_viewport(),
            ),
            final(self).realloc_bytes() == old(self).realloc_bytes(),
    {
        self.min_z = min_z;
        self.max_z = max_z;
        let rect: Rect = self.effective_viewport();
        self.emit_viewport_if_changed(rect);
    }

    fn emit_viewport_if_changed(&mut self, rect: Rect)
        ensures
            final(self)@ == old(self)@.viewport_emitted(rect),
            final(self).realloc_bytes() == old(self).realloc_bytes(),
    {
        if self.closed || self.passes.len() == 0 {
            return;
        }
        let same: bool = match self.last_emitted_viewport {
            Some(e) => e.0.0 == rect.0 && e.0.1 == rect.1 && e.0.2 == rect.2 && e.0.3 == rect.3
                && e.1 == self.min_z && e.2 == self.max_z,
            None => false,
        };
        if !same {
            let last: usize = self.passes.len() - 1;
            self.passes[last].list.push(
                Command::set_viewport(rect.0, rect.1, rect.2, rect.3, self.min_z, self.max_z),
            );
            self.passes[last].viewport = rect;
            self.last_emitted_viewport = Some((rect, self.min_z, self.max_z));
            assert(self@ =~= old(self)@.viewport_emitted(rect));
        }
    }

    /// Resolves the bound depth attachment into `destination`. Says whether there was
    /// something to resolve.
    pub fn resolve_depth_attachment(&mut self, destination: u64, filter: DepthResolveFilter) -> (r:
        bool)
        ensures
            r == (old(self)@.depth_texture != 0 && destination != 0),
            final(self)@ == old(self)@.depth_resolved(
                (DepthResolve {
                    source: old(self)@.depth_texture,
                    level: old(self)@.depth_level,
                    size: old(self)@.depth_size,
                    destination,
                    filter,
                    source_is_sampleable: old(self)@.attachments.depth_sampleable,
                }),
            ),
            final(self).realloc_bytes() == old(self).realloc_bytes(),
    {
        let resolve: DepthResolve = DepthResolve {
            source: self.depth_texture,
            level: self.depth_level,
            size: self.depth_size,
            destination,
            filter,
            source_is_sampleable: self.attachments.depth_sampleable,
        };
        self.resolve_depth_texture(&resolve)
    }

    /// Records a pass that does nothing but resolve one depth texture into another.
    pub fn resolve_depth_texture(&mut self, resolve: &DepthResolve) -> (r: bool)
        ensures
            r == (resolve.source != 0 && resolve.destination != 0),
            final(self)@ == old(self)@.depth_resolved(*resolve),
            final(self).realloc_bytes() == old(self).realloc_bytes(),
    {
        if resolve.source == 0 || resolve.destination == 0 {
            return false;
        }
        let ghost start = self@;
        self.end_current_pass();
        let commands: Vec<Command> = self.take_command_vec();
        let mut leading_blits: Vec<BlitCommand> = Vec::new();
        core::mem::swap(&mut self.pending_leading_blits, &mut leading_blits);
        let none: PassColorAttachment = PassColorAttachment::none();
        let pass: Pass = Pass {
            color: PassColorAttachment {
                texture: 0,
                srgb_texture: 0,
                msaa_texture: 0,
                msaa_srgb_texture: 0,
                resolve_texture: 0,
                subresource: 0,
                size: resolve.size,
                format: self.color_format,
                load: ColorLoad::DontCare,
                store: StoreAction::DontCare,
            },
            extra_color: [none, none, none],
            depth_texture: resolve.source,
            depth_level: resolve.level,
            depth_load: DepthLoad::Load,
            stencil_load: StencilLoad::Load,
            depth_store: StoreAction::Store,
            depth_resolve_texture: resolve.destination,
            depth_resolve_filter: resolve.filter,
            viewport: (0, 0, resolve.size.0, resolve.size.1),
            list: CommandList::new(commands),
            leading_blits,
            has_counting_visibility: false,
            depth_is_sampleable: resolve.source_is_sampleable,
            color_writes_observed: false,
        };
        assert(pass@ =~= start.resolve_pass(*resolve));
        self.passes.push(pass);
        self.closed = true;
        let _ = set_insert(&mut self.seen_depth, resolve.source);
        let _ = set_insert(&mut self.segment_depth, resolve.source);
        let _ = set_insert(&mut self.blit_written, resolve.destination);
        assert(self@ =~= start.depth_resolved(*resolve));
        true
    }
}

/// The bytes copied when a vector of `len` elements with room for `capacity` takes one more.
pub open spec fn growth(len: nat, capacity: usize, element: nat) -> nat {
    if len != capacity {
        0
    } else if capacity * element > usize::MAX {
        usize::MAX as nat
    } else {
        (capacity * element) as nat
    }
}

/// Whether a count of copied bytes went from `before` to `after` because a vector of `len`
/// commands with room for `room` took one more. The count stops at what can be counted.
pub open spec fn grew(before: u64, after: u64, len: nat, room: usize) -> bool {
    let grown = growth(len, room, vstd::layout::size_of::<Command>());
    &&& room >= len
    &&& after == (if before + grown > u64::MAX {
        u64::MAX as int
    } else {
        before + grown
    })
}

/// The bytes copied when a vector of `len` elements with room for `capacity` takes one more.
pub fn growth_bytes(len: usize, capacity: usize, element: usize) -> (r: u64)
    ensures
        r == growth(len as nat, capacity, element as nat),
{
    if len == capacity {
        match capacity.checked_mul(element) {
            Some(bytes) => bytes as u64,
            None => usize::MAX as u64,
        }
    } else {
        0
    }
}

/// The texture a blit writes, if it writes one.
pub fn blit_written_texture(blit: &BlitCommand) -> (r: Option<u64>)
    ensures
        r == blit_written_texture_spec(*blit),
{
    let writes: bool = match blit.cmd {
        BlitCommandType::CopyBufferToTexture => true,
        BlitCommandType::CopyTextureToTexture => true,
        BlitCommandType::GenerateMipmaps => true,
        BlitCommandType::Unknown => true,
        BlitCommandType::CopyBufferToBuffer => false,
        BlitCommandType::NotifyBufferDidModifyRange => false,
    };
    if !writes || blit.dst_handle == 0 {
        None
    } else {
        Some(blit.dst_handle)
    }
}

} // verus!
