//! What a [`PassState`](super::PassState) is, and what each operation makes of it.

use super::attachment::{
    CurrentAttachmentFlags, DepthResolve, ExtraColorSlot, FrameReset, PassColorAttachment, SavedColorView,
    UploadPassTarget,
};
use super::{
    ColorClearOutcome, ColorLoad, DepthClearOutcome, DepthLoad, Rect, StencilClearOutcome,
    StencilLoad, StoreAction, MAX_CMD_VEC_POOL,
};
use crate::metal::{
    BlitCommand, BlitCommandType, Command, CommandType, DepthResolveFilter, DirtyRange, PixelFormat,
    RenderScale, F32_ONE, VISIBILITY_COUNTING,
};
use vstd::prelude::*;

verus! {

/// Whether every range is not empty and ends at `n` at the latest.
pub open spec fn in_bounds(ranges: Seq<(usize, usize)>, n: nat) -> bool {
    forall|k: int| 0 <= k < ranges.len() ==> (#[trigger] ranges[k]).0 < ranges[k].1 <= n
}

/// Ranges of commands that moved back by `offset`.
pub open spec fn shifted_ranges(
    ranges: Seq<(usize, usize)>,
    offset: nat,
) -> Seq<(usize, usize)> {
    ranges.map_values(
        |r: (usize, usize)| ((r.0 + offset) as usize, (r.1 + offset) as usize),
    )
}

/// One recorded pass. `extra` has an entry for each of render targets 1 to 3.
#[verifier::ext_equal]
pub struct PassView {
    pub color: PassColorAttachment,
    pub extra: Seq<PassColorAttachment>,
    pub depth_texture: u64,
    pub depth_level: u32,
    pub depth_load: DepthLoad,
    pub stencil_load: StencilLoad,
    pub depth_store: StoreAction,
    pub depth_resolve_texture: u64,
    pub depth_resolve_filter: DepthResolveFilter,
    pub viewport: Rect,
    pub commands: Seq<Command>,
    pub leading_blits: Seq<BlitCommand>,
    pub has_counting_visibility: bool,
    pub depth_is_sampleable: bool,
    pub color_writes_observed: bool,
    pub quad_ranges: Seq<(usize, usize)>,
}

impl PassView {
    /// The attachment in colour slot `slot`, render target 0 being slot 0.
    pub open spec fn color_at(self, slot: int) -> PassColorAttachment {
        if slot == 0 {
            self.color
        } else {
            self.extra[slot - 1]
        }
    }

    /// The pass with another attachment in colour slot `slot`.
    pub open spec fn with_color_at(self, slot: int, a: PassColorAttachment) -> PassView {
        if slot == 0 {
            PassView { color: a, ..self }
        } else {
            PassView { extra: self.extra.update(slot - 1, a), ..self }
        }
    }

    /// Whether the pass rasterizes anything.
    pub open spec fn has_draw(self) -> bool {
        exists|i: int| 0 <= i < self.commands.len() && (#[trigger] self.commands[i]).is_draw_spec()
    }

    /// Whether the pass takes up work beyond its load actions: a draw or a blit before it.
    pub open spec fn has_effect_beyond_clears(self) -> bool {
        self.has_draw() || self.leading_blits.len() != 0
    }

    /// Whether `(texture, subresource)` is one of the colour attachments.
    pub open spec fn attaches_color(self, texture: u64, subresource: u32) -> bool {
        texture != 0 && exists|slot: int|
            0 <= slot < 4 && (#[trigger] self.color_at(slot)).texture == texture
                && self.color_at(slot).subresource == subresource
    }

    /// Whether some colour attachment is resolved when the pass ends.
    pub open spec fn resolves_color(self) -> bool {
        exists|slot: int| 0 <= slot < 4 && (#[trigger] self.color_at(slot)).resolve_texture != 0
    }

    /// Whether a colour resolve writes `texture`, through its sRGB twin or directly.
    pub open spec fn resolves_into(self, texture: u64, twin_to_base: Map<u64, u64>) -> bool {
        texture != 0 && exists|slot: int|
            0 <= slot < 4 && view_shows(
                (#[trigger] self.color_at(slot)).resolve_texture,
                texture,
                twin_to_base,
            )
    }

    /// Whether a draw of the pass can sample `texture`, or a blit before the pass reads it.
    pub open spec fn reads_texture(self, texture: u64, twin_to_base: Map<u64, u64>) -> bool {
        texture != 0 && ((exists|i: int|
            0 <= i < self.commands.len() && command_samples(
                #[trigger] self.commands[i],
                texture,
                twin_to_base,
            )) || (exists|i: int|
            0 <= i < self.leading_blits.len() && blit_reads(
                #[trigger] self.leading_blits[i],
                texture,
            )))
    }

    /// Whether a blit before the pass writes `texture`.
    pub open spec fn blits_into(self, texture: u64) -> bool {
        blits_write(self.leading_blits, texture)
    }

    /// The pass with one more command.
    pub open spec fn pushed(self, cmd: Command) -> PassView {
        PassView { commands: self.commands.push(cmd), ..self }
    }

    /// The pass with `f` applied to the attachment of every colour slot.
    pub open spec fn map_colors(
        self,
        f: spec_fn(int, PassColorAttachment) -> PassColorAttachment,
    ) -> PassView {
        PassView {
            color: f(0, self.color),
            extra: Seq::new(3, |k: int| f(k + 1, self.extra[k])),
            ..self
        }
    }

    /// The load actions with Rule A's discards taken back where the content is read somewhere.
    pub open spec fn loads_settled(self, sampled: Set<u64>) -> PassView {
        PassView {
            color: if self.color.load is DontCare && sampled.contains(self.color.texture) {
                PassColorAttachment { load: ColorLoad::Load, ..self.color }
            } else {
                self.color
            },
            extra: Seq::new(
                3,
                |k: int|
                    {
                        let a = self.extra[k];
                        if a.is_bound_spec() && a.load is DontCare && sampled.contains(a.texture) {
                            PassColorAttachment { load: ColorLoad::Load, ..a }
                        } else {
                            a
                        }
                    },
            ),
            depth_load: if self.depth_load is DontCare && sampled.contains(self.depth_texture) {
                DepthLoad::Load
            } else {
                self.depth_load
            },
            stencil_load: if self.stencil_load is DontCare && sampled.contains(
                self.depth_texture,
            ) {
                StencilLoad::Load
            } else {
                self.stencil_load
            },
            ..self
        }
    }

    /// Rule G: without draws or blits, colour attachments that are neither stored nor
    /// resolved go; render target 0 only where a depth attachment remains.
    pub open spec fn dead_color_stripped(self) -> PassView {
        if self.has_effect_beyond_clears() {
            self
        } else {
            PassView {
                color: if self.color.texture != 0 && self.color.store is DontCare
                    && self.color.resolve_texture == 0 && self.depth_texture != 0 {
                    self.color.stripped()
                } else {
                    self.color
                },
                extra: Seq::new(
                    3,
                    |k: int|
                        {
                            let a = self.extra[k];
                            if a.is_bound_spec() && a.store is DontCare && a.resolve_texture == 0 {
                                PassColorAttachment::none_spec()
                            } else {
                                a
                            }
                        },
                ),
                ..self
            }
        }
    }

    /// Whether some colour attachment is bound and stored.
    pub open spec fn stores_color(self) -> bool {
        exists|slot: int|
            0 <= slot < 4 && (#[trigger] self.color_at(slot)).is_bound_spec() && self.color_at(
                slot,
            ).store is Store
    }

    /// Rule F: whether anything of the pass can be observed.
    pub open spec fn is_observable(self) -> bool {
        ||| self.has_effect_beyond_clears()
        ||| self.resolves_color()
        ||| self.stores_color()
        ||| self.depth_texture != 0 && (self.depth_store is Store || self.depth_resolve_texture != 0)
    }

    /// Whether command `i` belongs to a painted colour clear.
    pub open spec fn in_quad(self, i: int) -> bool {
        exists|k: int|
            0 <= k < self.quad_ranges.len() && (#[trigger] self.quad_ranges[k]).0 <= i
                < self.quad_ranges[k].1
    }

    /// Whether the pass draws something besides painted colour clears.
    pub open spec fn has_real_draw(self) -> bool {
        exists|i: int|
            0 <= i < self.commands.len() && (#[trigger] self.commands[i]).is_draw_spec()
                && !self.in_quad(i)
    }

    /// Whether every pipeline the pass binds, painted clears apart, has a colourless variant.
    pub open spec fn pipelines_resolvable(self, alt: Map<u64, u64>) -> bool {
        forall|i: int|
            0 <= i < self.commands.len() && (#[trigger] self.commands[i]).cmd
                == CommandType::SetRenderPipelineState && !self.in_quad(i) ==> alt.contains_key(
                self.commands[i].param_b,
            )
    }

    /// The first `n` commands without those of painted clears, each pipeline replaced by its
    /// colourless variant.
    pub open spec fn colorless_commands(self, alt: Map<u64, u64>, n: nat) -> Seq<Command>
        decreases n,
    {
        if n == 0 {
            Seq::empty()
        } else {
            let before = self.colorless_commands(alt, (n - 1) as nat);
            let c = self.commands[n - 1];
            if self.in_quad(n - 1) {
                before
            } else if c.cmd == CommandType::SetRenderPipelineState && alt.contains_key(c.param_b) {
                before.push(Command { param_b: alt[c.param_b], ..c })
            } else {
                before.push(c)
            }
        }
    }

    /// Rule H: the pass without its colour attachments.
    pub open spec fn color_removed(self, alt: Map<u64, u64>) -> PassView {
        PassView {
            color: self.color.stripped(),
            extra: Seq::new(3, |k: int| PassColorAttachment::none_spec()),
            commands: self.colorless_commands(alt, self.commands.len()),
            quad_ranges: Seq::empty(),
            ..self
        }
    }

    /// The bound colour textures that the pass loads.
    pub open spec fn color_loads(self) -> Set<u64> {
        Set::new(
            |t: u64|
                t != 0 && exists|slot: int|
                    0 <= slot < 4 && (#[trigger] self.color_at(slot)).texture == t
                        && self.color_at(slot).load is Load,
        )
    }

    /// Whether the pass could lose its colour attachments under Rule H, going by itself alone.
    pub open spec fn color_is_removable(self, alt: Map<u64, u64>) -> bool {
        &&& !self.color_writes_observed
        &&& self.color.texture != 0
        &&& self.depth_texture != 0
        &&& !self.resolves_color()
        &&& !(self.color.load is Clear)
        &&& self.has_real_draw()
        &&& self.pipelines_resolvable(alt)
    }

    /// The pass with `f` applied to the load actions of bound render targets 1 to 3.
    pub open spec fn with_extra_loads(self, f: spec_fn(ColorLoad) -> ColorLoad) -> PassView {
        PassView {
            extra: self.extra.map_values(
                |a: PassColorAttachment|
                    if a.is_bound_spec() {
                        PassColorAttachment { load: f(a.load), ..a }
                    } else {
                        a
                    },
            ),
            ..self
        }
    }
}

/// A view handle shows `texture` when it is that texture or its registered sRGB twin.
pub open spec fn view_shows(view: u64, texture: u64, twin_to_base: Map<u64, u64>) -> bool {
    view != 0 && (view == texture || (twin_to_base.contains_key(view) && twin_to_base[view] == texture))
}

/// Whether a command binds `texture`, or its sRGB twin, for fragment sampling.
pub open spec fn command_samples(cmd: Command, texture: u64, twin_to_base: Map<u64, u64>) -> bool {
    cmd.cmd == CommandType::SetFragmentTexture && (cmd.param_b == texture || (
    twin_to_base.contains_key(cmd.param_b) && twin_to_base[cmd.param_b] == texture))
}

/// Whether a blit reads `texture`.
pub open spec fn blit_reads(blit: BlitCommand, texture: u64) -> bool {
    match blit.cmd {
        BlitCommandType::CopyTextureToTexture => blit.src_handle == texture,
        BlitCommandType::GenerateMipmaps => blit.dst_handle == texture,
        _ => false,
    }
}

/// The texture a blit writes. A kind without a name is taken to write one.
pub open spec fn blit_written_texture_spec(blit: BlitCommand) -> Option<u64> {
    match blit.cmd {
        BlitCommandType::CopyBufferToBuffer | BlitCommandType::NotifyBufferDidModifyRange => None,
        _ => if blit.dst_handle == 0 {
            None
        } else {
            Some(blit.dst_handle)
        },
    }
}

/// Whether one of `blits` writes `texture`.
pub open spec fn blits_write(blits: Seq<BlitCommand>, texture: u64) -> bool {
    texture != 0 && exists|i: int|
        0 <= i < blits.len() && blit_written_texture_spec(#[trigger] blits[i]) == Some(texture)
}

/// Slice and mip level in one number.
pub open spec fn packed_subresource(slice: u32, level: u32) -> u32 {
    slice | (level << 8)
}

/// A sample count of zero means one.
pub open spec fn at_least_one(count: u8) -> u8 {
    if count == 0 {
        1
    } else {
        count
    }
}

/// Bit `i` of a target mask is set when entry `i` holds.
pub open spec fn target_mask(present: Seq<bool>) -> u8 {
    ((if present[0] {
        1int
    } else {
        0
    }) + (if present[1] {
        2int
    } else {
        0
    }) + (if present[2] {
        4int
    } else {
        0
    })) as u8
}

/// A clearing load action turned into one that keeps the content.
pub open spec fn clear_to_load(load: ColorLoad) -> ColorLoad {
    if load is Clear {
        ColorLoad::Load
    } else {
        load
    }
}

/// Everything a [`PassState`](super::PassState) holds, but for how much memory it reserved.
#[verifier::ext_equal]
pub struct PassStateView {
    /// The passes recorded so far; the last one takes new commands unless `closed`.
    pub passes: Seq<PassView>,
    pub closed: bool,
    /// Render target 0: its texture, the views of it, and its extent.
    pub color_texture: u64,
    pub color_srgb: u64,
    pub color_msaa: u64,
    pub color_msaa_srgb: u64,
    pub color_sample_count: u8,
    pub color_subresource: u32,
    pub color_size: (u32, u32),
    pub color_logical_size: (u32, u32),
    pub color_format: PixelFormat,
    pub color_scale: RenderScale,
    /// Render targets 1 to 3, whether each takes part in the next pass, and their sRGB views.
    pub extra: Seq<ExtraColorSlot>,
    pub extra_present: Seq<bool>,
    pub extra_srgb: Seq<u64>,
    /// The depth-stencil attachment.
    pub depth_texture: u64,
    pub depth_level: u32,
    pub depth_size: (u32, u32),
    pub depth_sample_count: u8,
    pub attachments: CurrentAttachmentFlags,
    /// Clears that wait for the next pass to open.
    pub pending_color_clear: Option<(u32, u32, u32, u32)>,
    pub pending_depth_clear: Option<u32>,
    pub pending_stencil_clear: Option<u32>,
    /// The viewport as the game set it, and the depth range as IEEE bits.
    pub game_viewport: Rect,
    pub min_z: u32,
    pub max_z: u32,
    pub last_emitted_viewport: Option<(Rect, u32, u32)>,
    pub pending_leading_blits: Seq<BlitCommand>,
    /// Attachments used in this frame, and since the last submit.
    pub seen_color: Set<(u64, u32)>,
    pub seen_depth: Set<u64>,
    pub segment_color: Set<(u64, u32)>,
    pub segment_depth: Set<u64>,
    /// Textures that a queued blit writes in this frame.
    pub blit_written: Set<u64>,
    pub backbuffer: u64,
    pub backbuffer_logical_size: (u32, u32),
    pub render_scale: RenderScale,
    /// Textures read at any time, and in this frame.
    pub ever_sampled: Set<u64>,
    pub frame_sampled: Set<u64>,
    /// The registered sRGB views, by view and by texture.
    pub twin_to_base: Map<u64, u64>,
    pub base_to_twin: Map<u64, u64>,
    pub srgb_write_enabled: bool,
    pub pass_srgb_write: bool,
    /// Textures that were bound as sampleable depth, and the counters kept about them.
    pub sampleable_depth: Set<u64>,
    pub cascade_probe: bool,
    pub caster_writes: Map<u64, u32>,
    pub cascade_samples: Map<u64, u32>,
    pub frame_seq: u64,
    /// One past the last upload pass at the front of `passes`.
    pub upload_pass_end: usize,
    /// Byte ranges of buffers that draws of this frame read.
    pub drawn_ranges: Map<u64, DirtyRange>,
    /// How many emptied command vectors wait for reuse.
    pub pooled: nat,
}

impl PassStateView {
    /// Whether a pass takes commands.
    pub open spec fn is_open(self) -> bool {
        !self.closed && self.passes.len() > 0
    }

    /// Every pass knows three extra attachments, and so does the binding.
    pub open spec fn shaped(self) -> bool {
        &&& self.extra.len() == 3
        &&& self.extra_present.len() == 3
        &&& self.extra_srgb.len() == 3
    }

    /// The state with the last pass replaced.
    pub open spec fn with_last(self, p: PassView) -> PassStateView {
        PassStateView { passes: self.passes.update(self.passes.len() - 1, p), ..self }
    }

    // -- questions ----------------------------------------------------------------------

    /// The viewport in texels of the bound target. Without a viewport, all of it.
    pub open spec fn effective_viewport(self) -> Rect {
        if self.game_viewport.2 != 0 && self.game_viewport.3 != 0 {
            self.color_scale.rect_spec(
                self.game_viewport.0,
                self.game_viewport.1,
                self.game_viewport.2,
                self.game_viewport.3,
            )
        } else {
            (0, 0, self.color_size.0, self.color_size.1)
        }
    }

    /// Whether a rectangle reaches over all of `size`.
    pub open spec fn rect_covers(rect: Rect, size: (u32, u32)) -> bool {
        rect.0 == 0 && rect.1 == 0 && rect.2 >= size.0 && rect.3 >= size.1
    }

    pub open spec fn viewport_covers_color(self) -> bool {
        self.color_texture == 0 || Self::rect_covers(self.effective_viewport(), self.color_size)
    }

    pub open spec fn viewport_covers_depth(self) -> bool {
        self.depth_texture == 0 || Self::rect_covers(self.effective_viewport(), self.depth_size)
    }

    /// Whether the next pass carries the depth attachment: its sample count has to agree.
    pub open spec fn binds_depth(self) -> bool {
        self.depth_texture != 0 && self.depth_sample_count == self.color_sample_count
    }

    pub open spec fn has_extras(self) -> bool {
        exists|i: int| 0 <= i < 3 && (#[trigger] self.extra[i]).is_bound_spec()
    }

    /// The registered sRGB view of a texture, zero for none.
    pub open spec fn twin_of(self, base: u64) -> u64 {
        if self.base_to_twin.contains_key(base) {
            self.base_to_twin[base]
        } else {
            0
        }
    }

    /// A multisampled companion has to have an sRGB view of its own.
    pub open spec fn companion_twin_present(msaa: u64, msaa_srgb: u64) -> bool {
        msaa == 0 || msaa_srgb != 0
    }

    /// Whether every colour attachment of the next pass has an sRGB view.
    pub open spec fn srgb_attachable(self) -> bool {
        &&& self.color_texture != 0
        &&& self.twin_of(self.color_texture) != 0
        &&& Self::companion_twin_present(self.color_msaa, self.color_msaa_srgb)
        &&& forall|i: int|
            0 <= i < 3 && #[trigger] self.extra_present[i] ==> (self.twin_of(self.extra[i].texture) != 0
                && Self::companion_twin_present(
                self.extra[i].msaa_texture,
                self.extra[i].msaa_srgb_texture,
            ))
    }

    /// The pixel format of the view attached as render target 0.
    pub open spec fn color_attachment_format(self) -> PixelFormat {
        if self.pass_srgb_write && self.color_format.srgb_twin_spec() is Some {
            self.color_format.srgb_twin_spec()->0
        } else {
            self.color_format
        }
    }

    /// The pixel format of the view attached as render target `i + 1`.
    pub open spec fn extra_attachment_format(self, i: int) -> PixelFormat {
        if self.pass_srgb_write && self.extra_present[i]
            && self.extra[i].format.srgb_twin_spec() is Some {
            self.extra[i].format.srgb_twin_spec()->0
        } else {
            self.extra[i].format
        }
    }

    pub open spec fn has_work(self) -> bool {
        self.is_open() && self.passes.last().commands.len() > 1
    }

    pub open spec fn counts_visibility(self) -> bool {
        self.is_open() && self.passes.last().has_counting_visibility
    }

    /// Whether a colour attachment of the next pass already holds content of this segment.
    pub open spec fn bound_color_seen(self) -> bool {
        ||| self.color_texture != 0 && self.segment_color.contains(
            (self.color_texture, self.color_subresource),
        )
        ||| exists|i: int|
            0 <= i < 3 && self.extra_present[i] && self.segment_color.contains(
                ((#[trigger] self.extra[i]).texture, self.extra[i].subresource),
            )
    }

    // -- opening and closing passes -----------------------------------------------------

    /// Rule A for colour: a waiting clear, else nothing for a first use that the viewport
    /// covers exactly, else the content.
    pub open spec fn color_load_for(self, texture: u64, subresource: u32) -> ColorLoad {
        match self.pending_color_clear {
            Some((r, g, b, a)) => ColorLoad::Clear { r, g, b, a },
            None => if self.effective_viewport() == (0u32, 0u32, self.color_size.0, self.color_size.1)
                && texture != 0 && !self.seen_color.contains((texture, subresource))
                && !self.ever_sampled.contains(texture) && !self.blit_written.contains(texture) {
                ColorLoad::DontCare
            } else {
                ColorLoad::Load
            },
        }
    }

    /// The depth texture of the next pass.
    pub open spec fn pass_depth_texture(self) -> u64 {
        if self.binds_depth() {
            self.depth_texture
        } else {
            0
        }
    }

    /// Rule A for depth and stencil: a first use that the viewport covers.
    pub open spec fn depth_first_use(self) -> bool {
        let d = self.pass_depth_texture();
        &&& self.viewport_covers_depth()
        &&& d != 0
        &&& !self.attachments.depth_sampleable
        &&& !self.seen_depth.contains(d)
        &&& !self.ever_sampled.contains(d)
        &&& !self.blit_written.contains(d)
    }

    pub open spec fn next_depth_load(self) -> DepthLoad {
        match self.pending_depth_clear {
            Some(value) => DepthLoad::Clear { value },
            None => if self.depth_first_use() {
                DepthLoad::DontCare
            } else {
                DepthLoad::Load
            },
        }
    }

    pub open spec fn next_stencil_load(self) -> StencilLoad {
        match self.pending_stencil_clear {
            Some(value) => StencilLoad::Clear { value },
            None => if self.depth_first_use() {
                StencilLoad::DontCare
            } else {
                StencilLoad::Load
            },
        }
    }

    /// Render target 0 of the next pass.
    pub open spec fn next_color(self) -> PassColorAttachment {
        PassColorAttachment {
            texture: self.color_texture,
            srgb_texture: if self.pass_srgb_write {
                self.color_srgb
            } else {
                0
            },
            msaa_texture: self.color_msaa,
            msaa_srgb_texture: if self.pass_srgb_write {
                self.color_msaa_srgb
            } else {
                0
            },
            resolve_texture: 0,
            subresource: self.color_subresource,
            size: self.color_size,
            format: self.color_attachment_format(),
            load: self.color_load_for(self.color_texture, self.color_subresource),
            store: StoreAction::Store,
        }
    }

    /// Render target `i + 1` of the next pass.
    pub open spec fn next_extra(self, i: int) -> PassColorAttachment {
        let slot = self.extra[i];
        if !self.extra_present[i] {
            PassColorAttachment::none_spec()
        } else {
            PassColorAttachment {
                texture: slot.texture,
                srgb_texture: if self.pass_srgb_write {
                    self.extra_srgb[i]
                } else {
                    0
                },
                msaa_texture: slot.msaa_texture,
                msaa_srgb_texture: if self.pass_srgb_write {
                    slot.msaa_srgb_texture
                } else {
                    0
                },
                resolve_texture: 0,
                subresource: slot.subresource,
                size: slot.size,
                format: self.extra_attachment_format(i),
                load: self.color_load_for(slot.texture, slot.subresource),
                store: StoreAction::Store,
            }
        }
    }

    /// The pass that opens next. Its first command sets the viewport.
    pub open spec fn next_pass(self) -> PassView {
        let vp = self.effective_viewport();
        PassView {
            color: self.next_color(),
            extra: Seq::new(3, |i: int| self.next_extra(i)),
            depth_texture: self.pass_depth_texture(),
            depth_level: self.depth_level,
            depth_load: self.next_depth_load(),
            stencil_load: self.next_stencil_load(),
            depth_store: StoreAction::Store,
            depth_resolve_texture: 0,
            depth_resolve_filter: DepthResolveFilter::Sample0,
            viewport: vp,
            commands: seq![
                Command::set_viewport_spec(vp.0, vp.1, vp.2, vp.3, self.min_z, self.max_z),
            ],
            leading_blits: self.pending_leading_blits,
            has_counting_visibility: false,
            depth_is_sampleable: self.attachments.depth_sampleable,
            color_writes_observed: false,
            quad_ranges: Seq::empty(),
        }
    }

    /// A set of attachments grown by the colour attachments of a pass.
    pub open spec fn with_colors_of(set: Set<(u64, u32)>, p: PassView) -> Set<(u64, u32)> {
        Set::new(
            |k: (u64, u32)|
                set.contains(k) || exists|slot: int|
                    0 <= slot < 4 && (#[trigger] p.color_at(slot)).is_bound_spec()
                        && p.color_at(slot).texture == k.0 && p.color_at(slot).subresource == k.1,
        )
    }

    pub open spec fn with_nonzero(set: Set<u64>, texture: u64) -> Set<u64> {
        if texture == 0 {
            set
        } else {
            set.insert(texture)
        }
    }

    /// A command vector leaves the pool when there is one.
    pub open spec fn pool_after_pop(self) -> nat {
        if self.pooled > 0 {
            (self.pooled - 1) as nat
        } else {
            0
        }
    }

    /// Opens a pass unless one is open. Waiting clears and blits go into it.
    pub open spec fn opened(self) -> PassStateView {
        if self.is_open() {
            self
        } else {
            let p = self.next_pass();
            PassStateView {
                passes: self.passes.push(p),
                closed: false,
                pending_color_clear: None,
                pending_depth_clear: None,
                pending_stencil_clear: None,
                pending_leading_blits: Seq::empty(),
                seen_color: Self::with_colors_of(self.seen_color, p),
                segment_color: Self::with_colors_of(self.segment_color, p),
                seen_depth: Self::with_nonzero(self.seen_depth, p.depth_texture),
                segment_depth: Self::with_nonzero(self.segment_depth, p.depth_texture),
                last_emitted_viewport: Some((p.viewport, self.min_z, self.max_z)),
                pooled: self.pool_after_pop(),
                ..self
            }
        }
    }

    /// Closes the open pass.
    pub open spec fn ended(self) -> PassStateView {
        if self.is_open() {
            PassStateView { closed: true, ..self }
        } else {
            self
        }
    }

    pub open spec fn has_pending_clear(self) -> bool {
        self.pending_color_clear is Some || self.pending_depth_clear is Some
            || self.pending_stencil_clear is Some
    }

    /// Gives waiting clears a pass of their own on the attachments bound now.
    pub open spec fn flushed(self) -> PassStateView {
        if self.has_pending_clear() {
            self.opened().ended()
        } else {
            self
        }
    }

    /// What an outgoing colour attachment leaves behind: its waiting clear in a pass, and
    /// no open pass.
    pub open spec fn color_released(self) -> PassStateView {
        (if self.pending_color_clear is Some {
            self.flushed()
        } else {
            self
        }).ended()
    }

    /// The same for an outgoing depth attachment.
    pub open spec fn depth_released(self) -> PassStateView {
        (if self.pending_depth_clear is Some || self.pending_stencil_clear is Some {
            self.flushed()
        } else {
            self
        }).ended()
    }

    // -- sRGB views ---------------------------------------------------------------------

    /// The views of the bound targets looked up again.
    pub open spec fn srgb_resolved(self) -> PassStateView {
        PassStateView {
            color_srgb: self.twin_of(self.color_texture),
            extra_srgb: Seq::new(3, |i: int| self.twin_of(self.extra[i].texture)),
            pass_srgb_write: self.srgb_write_enabled && self.srgb_attachable(),
            ..self
        }
    }

    /// The views looked up again; if the choice of views changes, the pass ends first.
    pub open spec fn srgb_applied(self) -> PassStateView {
        (if self.pass_srgb_write != (self.srgb_write_enabled && self.srgb_attachable()) {
            self.color_released()
        } else {
            self
        }).srgb_resolved()
    }

    pub open spec fn with_twin(self, twin: u64, base: u64) -> PassStateView {
        if twin == 0 || base == 0 {
            self
        } else {
            PassStateView {
                twin_to_base: self.twin_to_base.insert(twin, base),
                base_to_twin: self.base_to_twin.insert(base, twin),
                ..self
            }
        }
    }

    pub open spec fn without_twin(self, twin: u64) -> PassStateView {
        if twin == 0 || !self.twin_to_base.contains_key(twin) {
            self
        } else {
            PassStateView {
                twin_to_base: self.twin_to_base.remove(twin),
                base_to_twin: self.base_to_twin.remove(self.twin_to_base[twin]),
                ..self
            }
        }
    }

    // -- bindings -----------------------------------------------------------------------

    /// A target 1 to 3 takes part in a pass when it looks like target 0.
    pub open spec fn extra_takes_part(self, i: int) -> bool {
        self.extra[i].is_bound_spec() && self.extra[i].sample_count == self.color_sample_count
            && self.extra[i].size == self.color_size
    }

    /// Which targets take part, and the sRGB views, worked out again.
    pub open spec fn extras_resolved(self) -> PassStateView {
        (PassStateView {
            extra_present: Seq::new(3, |i: int| self.extra_takes_part(i)),
            ..self
        }).srgb_resolved()
    }

    pub open spec fn targets_resolved(self) -> PassStateView {
        if self.has_extras() {
            self.extras_resolved()
        } else {
            self.srgb_resolved()
        }
    }

    /// Binds render target 0. The same texture, subresource, format and extent again
    /// keeps the pass going.
    pub open spec fn with_color_target(
        self,
        texture: u64,
        logical: (u32, u32),
        format: PixelFormat,
        scale: RenderScale,
        subresource: u32,
    ) -> PassStateView {
        let size = (scale.dimension_spec(logical.0), scale.dimension_spec(logical.1));
        let s = PassStateView {
            color_msaa: 0,
            color_msaa_srgb: 0,
            color_sample_count: 1,
            color_scale: scale,
            color_logical_size: logical,
            ..self
        };
        if s.color_texture == texture && s.color_subresource == subresource && s.color_format
            == format && s.color_size == size {
            s.targets_resolved()
        } else {
            (PassStateView {
                color_texture: texture,
                color_subresource: subresource,
                color_size: size,
                color_format: format,
                ..s.color_released()
            }).targets_resolved()
        }
    }

    /// Attaches a multisampled companion to render target 0.
    pub open spec fn with_color_msaa(self, msaa: u64, msaa_srgb: u64, count: u8) -> PassStateView {
        (PassStateView {
            color_msaa: msaa,
            color_msaa_srgb: if msaa == 0 {
                0
            } else {
                msaa_srgb
            },
            color_sample_count: if msaa == 0 {
                1
            } else {
                at_least_one(count)
            },
            ..self
        }).srgb_applied()
    }

    pub open spec fn with_color_alpha(self, has_alpha: bool) -> PassStateView {
        PassStateView {
            attachments: CurrentAttachmentFlags { color_has_alpha: has_alpha, ..self.attachments },
            ..self
        }
    }

    /// Binds render target `i + 1`.
    pub open spec fn with_extra(self, i: int, binding: ExtraColorSlot) -> PassStateView {
        let b = binding.sized();
        let same = self.extra[i].texture == b.texture && self.extra[i].subresource == b.subresource
            && self.extra[i].format == b.format && self.extra[i].size == b.size;
        let s = if same {
            self
        } else {
            self.color_released()
        };
        (PassStateView { extra: s.extra.update(i, b), ..s }).extras_resolved()
    }

    /// The colour bindings as they can be saved.
    pub open spec fn saved_color(self) -> SavedColorView {
        SavedColorView {
            texture: self.color_texture,
            msaa_texture: self.color_msaa,
            msaa_srgb_texture: self.color_msaa_srgb,
            sample_count: self.color_sample_count,
            slice: self.color_subresource & 0xff,
            level: self.color_subresource >> 8,
            logical_size: self.color_logical_size,
            format: self.color_format,
            scale: self.color_scale,
            has_alpha: self.attachments.color_has_alpha,
            extra: self.extra,
        }
    }

    pub open spec fn no_extras() -> Seq<ExtraColorSlot> {
        Seq::new(3, |i: int| ExtraColorSlot::none_spec())
    }

    /// Takes targets 1 to 3 off.
    pub open spec fn extras_taken(self) -> PassStateView {
        let s = PassStateView { extra: Self::no_extras(), ..self };
        (if self.has_extras() {
            s.color_released()
        } else {
            s
        }).extras_resolved()
    }

    /// The state after the commands since `start` were marked as a painted colour clear.
    pub open spec fn quad_closed(self, start: usize) -> PassStateView {
        if self.passes.len() > 0 && self.passes.last().commands.len() > start {
            self.with_last(
                PassView {
                    quad_ranges: self.passes.last().quad_ranges.push(
                        (start, self.passes.last().commands.len() as usize),
                    ),
                    ..self.passes.last()
                },
            )
        } else {
            self
        }
    }

    /// Puts saved colour bindings back.
    pub open spec fn color_restored(self, saved: SavedColorView) -> PassStateView {
        let s = self.with_color_target(
            saved.texture,
            saved.logical_size,
            saved.format,
            saved.scale,
            packed_subresource(saved.slice, saved.level),
        ).with_color_alpha(saved.has_alpha).with_color_msaa(
            saved.msaa_texture,
            saved.msaa_srgb_texture,
            saved.sample_count,
        );
        (if s.extra == saved.extra {
            s
        } else {
            PassStateView { extra: saved.extra, ..s.color_released() }
        }).extras_resolved()
    }

    /// Binds a depth-stencil attachment. The same texture and level again keeps the pass going.
    pub open spec fn with_depth_target(
        self,
        texture: u64,
        level: u32,
        size: (u32, u32),
        sampleable: bool,
        has_stencil: bool,
    ) -> PassStateView {
        let s = PassStateView {
            depth_sample_count: 1,
            sampleable_depth: if sampleable {
                Self::with_nonzero(self.sampleable_depth, texture)
            } else {
                self.sampleable_depth
            },
            attachments: CurrentAttachmentFlags {
                depth_has_stencil: has_stencil,
                ..self.attachments
            },
            ..self
        };
        if s.depth_texture == texture && s.depth_level == level && s.attachments.depth_sampleable
            == sampleable {
            s
        } else {
            let t = PassStateView {
                attachments: CurrentAttachmentFlags {
                    depth_sampleable: sampleable,
                    ..s.attachments
                },
                ..s
            };
            PassStateView {
                depth_texture: texture,
                depth_level: level,
                depth_size: size,
                ..t.depth_released()
            }
        }
    }

    /// Every record about `texture` dropped.
    pub open spec fn forgotten(self, texture: u64) -> PassStateView {
        if texture == 0 {
            self
        } else {
            PassStateView {
                seen_color: self.seen_color.filter(|k: (u64, u32)| k.0 != texture),
                segment_color: self.segment_color.filter(|k: (u64, u32)| k.0 != texture),
                ..self.depth_forgotten(texture)
            }
        }
    }

    /// Every record about `texture` but those as a colour attachment dropped.
    pub open spec fn depth_forgotten(self, texture: u64) -> PassStateView {
        PassStateView {
            seen_depth: self.seen_depth.remove(texture),
            segment_depth: self.segment_depth.remove(texture),
            blit_written: self.blit_written.remove(texture),
            ever_sampled: self.ever_sampled.remove(texture),
            frame_sampled: self.frame_sampled.remove(texture),
            sampleable_depth: self.sampleable_depth.remove(texture),
            caster_writes: self.caster_writes.remove(texture),
            cascade_samples: self.cascade_samples.remove(texture),
            ..self
        }
    }

    /// The depth texture `texture` unbound, if it is bound, and forgotten.
    pub open spec fn depth_retired(self, texture: u64) -> PassStateView {
        if texture == 0 {
            self
        } else {
            (if self.depth_texture == texture {
                self.with_depth_target(0, 0, (0, 0), false, false)
            } else {
                self
            }).depth_forgotten(texture)
        }
    }

    // -- clears -------------------------------------------------------------------------

    /// Every colour load action of the last pass, those of unbound targets 1 to 3 apart,
    /// changed by `f`.
    pub open spec fn with_color_loads(self, f: spec_fn(ColorLoad) -> ColorLoad) -> PassStateView {
        let p = self.passes.last();
        self.with_last(
            (PassView {
                color: PassColorAttachment { load: f(p.color.load), ..p.color },
                ..p
            }).with_extra_loads(f),
        )
    }

    /// What a colour clear makes of the state, and what the caller has to do.
    ///
    /// An open pass with draws keeps going and the clear is painted, unless it counts
    /// visible samples; then it ends. Where an attachment holds content of this segment the
    /// clear is painted over it. Otherwise it becomes the load action of the open pass, or of
    /// the next.
    pub open spec fn color_cleared(self, rgba: (u32, u32, u32, u32)) -> (
        PassStateView,
        ColorClearOutcome,
    ) {
        let quad = ColorClearOutcome::EmitQuad {
            rgba,
            viewport: self.effective_viewport(),
            color_format: self.color_attachment_format(),
        };
        let clear = ColorLoad::Clear { r: rgba.0, g: rgba.1, b: rgba.2, a: rgba.3 };
        if self.has_work() && !self.counts_visibility() {
            (self, quad)
        } else {
            let s = if self.has_work() {
                self.ended()
            } else {
                self
            };
            if s.bound_color_seen() && s.game_viewport.2 > 0 && s.game_viewport.3 > 0 {
                (s.opened().with_color_loads(|l: ColorLoad| clear_to_load(l)), quad)
            } else if s.is_open() {
                (
                    (PassStateView { pending_color_clear: None, ..s }).with_color_loads(
                        |l: ColorLoad| clear,
                    ),
                    ColorClearOutcome::Folded,
                )
            } else {
                (
                    PassStateView { pending_color_clear: Some(rgba), ..s },
                    ColorClearOutcome::Folded,
                )
            }
        }
    }

    /// Whether a clear of the depth-stencil attachment would be painted over content of this
    /// segment.
    pub open spec fn depth_clear_crosses(self) -> bool {
        self.segment_depth.contains(self.depth_texture) && self.game_viewport.2 != 0
            && self.game_viewport.3 != 0
    }

    pub open spec fn viewport_is_empty(self) -> bool {
        self.effective_viewport().2 == 0 || self.effective_viewport().3 == 0
    }

    /// What a depth clear makes of the state, and what the caller has to do. The cases are
    /// those of a colour clear; where nothing is attached, or the viewport has no extent in
    /// a case that paints, nothing changes.
    pub open spec fn depth_cleared(self, value: u32) -> (PassStateView, DepthClearOutcome) {
        let quad = DepthClearOutcome::EmitQuad {
            value,
            viewport: self.effective_viewport(),
            has_color: self.color_texture != 0,
            color_format: self.color_attachment_format(),
        };
        if !self.binds_depth() {
            (self, DepthClearOutcome::NoOp)
        } else if self.has_work() && !self.counts_visibility() {
            if self.viewport_is_empty() {
                (self, DepthClearOutcome::NoOp)
            } else {
                (self, quad)
            }
        } else if self.depth_clear_crosses() && self.viewport_is_empty() {
            (self, DepthClearOutcome::NoOp)
        } else {
            let s = if self.has_work() {
                self.ended()
            } else {
                self
            };
            if s.depth_clear_crosses() {
                let t = s.opened();
                let p = t.passes.last();
                (
                    t.with_last(
                        PassView {
                            depth_load: if p.depth_load is Clear {
                                DepthLoad::Load
                            } else {
                                p.depth_load
                            },
                            ..p
                        },
                    ),
                    quad,
                )
            } else if s.is_open() {
                (
                    (PassStateView { pending_depth_clear: None, ..s }).with_last(
                        PassView { depth_load: DepthLoad::Clear { value }, ..s.passes.last() },
                    ),
                    DepthClearOutcome::Folded,
                )
            } else {
                (
                    PassStateView { pending_depth_clear: Some(value), ..s },
                    DepthClearOutcome::Folded,
                )
            }
        }
    }

    /// What a stencil clear makes of the state; the cases are those of a depth clear.
    pub open spec fn stencil_cleared(self, value: u32) -> (PassStateView, StencilClearOutcome) {
        let quad = StencilClearOutcome::EmitQuad {
            value,
            viewport: self.effective_viewport(),
            has_color: self.color_texture != 0,
            color_format: self.color_attachment_format(),
        };
        if !self.binds_depth() {
            (self, StencilClearOutcome::NoOp)
        } else if self.has_work() && !self.counts_visibility() {
            if self.viewport_is_empty() {
                (self, StencilClearOutcome::NoOp)
            } else {
                (self, quad)
            }
        } else if self.depth_clear_crosses() && self.viewport_is_empty() {
            (self, StencilClearOutcome::NoOp)
        } else {
            let s = if self.has_work() {
                self.ended()
            } else {
                self
            };
            if s.depth_clear_crosses() {
                let t = s.opened();
                let p = t.passes.last();
                (
                    t.with_last(
                        PassView {
                            stencil_load: if p.stencil_load is Clear {
                                StencilLoad::Load
                            } else {
                                p.stencil_load
                            },
                            ..p
                        },
                    ),
                    quad,
                )
            } else if s.is_open() {
                (
                    (PassStateView { pending_stencil_clear: None, ..s }).with_last(
                        PassView { stencil_load: StencilLoad::Clear { value }, ..s.passes.last() },
                    ),
                    StencilClearOutcome::Folded,
                )
            } else {
                (
                    PassStateView { pending_stencil_clear: Some(value), ..s },
                    StencilClearOutcome::Folded,
                )
            }
        }
    }

    /// The state in which part of the colour attachments can be painted clear: a pass is
    /// open, and one that was opened for it loads what the paint leaves alone, unless a
    /// waiting clear lands under the paint.
    pub open spec fn region_color_begun(self) -> PassStateView {
        let s = if self.counts_visibility() {
            self.ended()
        } else {
            self
        };
        if !s.is_open() && s.pending_color_clear is None {
            s.opened().with_color_loads(|l: ColorLoad| ColorLoad::Load)
        } else {
            s.opened()
        }
    }

    /// The same for the depth and stencil planes.
    pub open spec fn region_depth_begun(self) -> PassStateView {
        let s = if self.counts_visibility() {
            self.ended()
        } else {
            self
        };
        let t = s.opened();
        let p = t.passes.last();
        if s.is_open() {
            t
        } else {
            t.with_last(
                PassView {
                    depth_load: if s.pending_depth_clear is None {
                        DepthLoad::Load
                    } else {
                        p.depth_load
                    },
                    stencil_load: if s.pending_stencil_clear is None {
                        StencilLoad::Load
                    } else {
                        p.stencil_load
                    },
                    ..p
                },
            )
        }
    }

    // -- commands -----------------------------------------------------------------------

    /// A counter in a map, one higher.
    pub open spec fn counted(m: Map<u64, u32>, key: u64) -> Map<u64, u32> {
        m.insert(
            key,
            if m.contains_key(key) {
                if m[key] == u32::MAX {
                    0
                } else {
                    (m[key] + 1) as u32
                }
            } else {
                1
            },
        )
    }

    /// `texture` noted as sampled, and with it the texture it is an sRGB view of.
    pub open spec fn sampled(self, set: Set<u64>, texture: u64) -> Set<u64> {
        if self.twin_to_base.contains_key(texture) {
            set.insert(texture).insert(self.twin_to_base[texture])
        } else {
            set.insert(texture)
        }
    }

    /// A command recorded in the open pass.
    pub open spec fn emitted(self, cmd: Command) -> PassStateView {
        let s = self.opened();
        let binds = cmd.cmd == CommandType::SetFragmentTexture && cmd.param_b != 0;
        let last = s.passes.last();
        (PassStateView {
            ever_sampled: if binds {
                s.sampled(s.ever_sampled, cmd.param_b)
            } else {
                s.ever_sampled
            },
            frame_sampled: if binds {
                s.sampled(s.frame_sampled, cmd.param_b)
            } else {
                s.frame_sampled
            },
            cascade_samples: if binds && s.cascade_probe && s.sampleable_depth.contains(
                cmd.param_b,
            ) {
                Self::counted(s.cascade_samples, cmd.param_b)
            } else {
                s.cascade_samples
            },
            ..s
        }).with_last(
            PassView {
                commands: last.commands.push(cmd),
                has_counting_visibility: last.has_counting_visibility || (cmd.cmd
                    == CommandType::SetVisibilityResultMode && cmd.param_a == VISIBILITY_COUNTING),
                ..last
            },
        )
    }

    /// A viewport command recorded, unless it repeats the last one or no pass is open.
    pub open spec fn viewport_emitted(self, rect: Rect) -> PassStateView {
        if self.is_open() && self.last_emitted_viewport != Some((rect, self.min_z, self.max_z)) {
            (PassStateView {
                last_emitted_viewport: Some((rect, self.min_z, self.max_z)),
                ..self
            }).with_last(
                PassView {
                    viewport: rect,
                    ..self.passes.last().pushed(
                        Command::set_viewport_spec(
                            rect.0,
                            rect.1,
                            rect.2,
                            rect.3,
                            self.min_z,
                            self.max_z,
                        ),
                    )
                },
            )
        } else {
            self
        }
    }

    /// A blit queued to run before the next pass.
    pub open spec fn blit_queued(self, blit: BlitCommand) -> PassStateView {
        PassStateView {
            ever_sampled: if blit.cmd == BlitCommandType::CopyTextureToTexture {
                Self::with_nonzero(self.ever_sampled, blit.src_handle)
            } else {
                self.ever_sampled
            },
            blit_written: match blit_written_texture_spec(blit) {
                Some(t) => self.blit_written.insert(t),
                None => self.blit_written,
            },
            pending_leading_blits: self.pending_leading_blits.push(blit),
            ..self
        }
    }

    /// The pass that draws an upload.
    pub open spec fn upload_pass(target: UploadPassTarget, commands: Seq<Command>) -> PassView {
        let rect = target.rect;
        PassView {
            color: PassColorAttachment {
                texture: target.texture,
                srgb_texture: 0,
                msaa_texture: 0,
                msaa_srgb_texture: 0,
                resolve_texture: 0,
                subresource: packed_subresource(target.subresource.0, target.subresource.1),
                size: target.size,
                format: target.format,
                load: if rect == (0u32, 0u32, target.size.0, target.size.1) {
                    ColorLoad::DontCare
                } else {
                    ColorLoad::Load
                },
                store: StoreAction::Store,
            },
            extra: Seq::new(3, |i: int| PassColorAttachment::none_spec()),
            depth_texture: 0,
            depth_level: 0,
            depth_load: DepthLoad::DontCare,
            stencil_load: StencilLoad::DontCare,
            depth_store: StoreAction::DontCare,
            depth_resolve_texture: 0,
            depth_resolve_filter: DepthResolveFilter::Sample0,
            viewport: rect,
            commands: seq![
                Command::set_viewport_spec(rect.0, rect.1, rect.2, rect.3, 0, F32_ONE),
            ] + commands,
            leading_blits: Seq::empty(),
            has_counting_visibility: false,
            depth_is_sampleable: false,
            color_writes_observed: true,
            quad_ranges: Seq::empty(),
        }
    }

    /// An upload pass spliced in behind the earlier ones.
    pub open spec fn upload_pushed(
        self,
        target: UploadPassTarget,
        commands: Seq<Command>,
    ) -> PassStateView {
        let key = (
            target.texture,
            packed_subresource(target.subresource.0, target.subresource.1),
        );
        PassStateView {
            passes: self.passes.insert(
                self.upload_pass_end as int,
                Self::upload_pass(target, commands),
            ),
            upload_pass_end: (self.upload_pass_end + 1) as usize,
            seen_color: self.seen_color.insert(key),
            segment_color: self.segment_color.insert(key),
            blit_written: self.blit_written.insert(target.texture),
            ever_sampled: self.ever_sampled.insert(target.texture),
            pooled: self.pool_after_pop(),
            ..self
        }
    }

    /// A pass that only resolves depth. Waiting blits run before it.
    pub open spec fn resolve_pass(self, resolve: DepthResolve) -> PassView {
        PassView {
            color: PassColorAttachment {
                size: resolve.size,
                format: self.color_format,
                ..PassColorAttachment::none_spec()
            },
            extra: Seq::new(3, |i: int| PassColorAttachment::none_spec()),
            depth_texture: resolve.source,
            depth_level: resolve.level,
            depth_load: DepthLoad::Load,
            stencil_load: StencilLoad::Load,
            depth_store: StoreAction::Store,
            depth_resolve_texture: resolve.destination,
            depth_resolve_filter: resolve.filter,
            viewport: (0, 0, resolve.size.0, resolve.size.1),
            commands: Seq::empty(),
            leading_blits: self.pending_leading_blits,
            has_counting_visibility: false,
            depth_is_sampleable: resolve.source_is_sampleable,
            color_writes_observed: false,
            quad_ranges: Seq::empty(),
        }
    }

    /// A depth resolve recorded, unless one of its ends is missing.
    pub open spec fn depth_resolved(self, resolve: DepthResolve) -> PassStateView {
        if resolve.source == 0 || resolve.destination == 0 {
            self
        } else {
            PassStateView {
                passes: self.passes.push(self.resolve_pass(resolve)),
                closed: true,
                pending_leading_blits: Seq::empty(),
                seen_depth: self.seen_depth.insert(resolve.source),
                segment_depth: self.segment_depth.insert(resolve.source),
                blit_written: self.blit_written.insert(resolve.destination),
                pooled: self.pool_after_pop(),
                ..self
            }
        }
    }

    // -- settling the frame -------------------------------------------------------------

    /// Whether a bound colour texture of `p` is seen by anyone after `p`: it is presented,
    /// sampled at some time, loaded by a later pass that keeps its colour, or read by a later
    /// pass.
    pub open spec fn color_observed_later(self, p: PassView, rest: Seq<PassView>, loaded: Set<u64>) -> bool {
        exists|slot: int|
            0 <= slot < 4 && (#[trigger] p.color_at(slot)).is_bound_spec() && self.texture_observed(
                p.color_at(slot).texture,
                rest,
                loaded,
            )
    }

    pub open spec fn texture_observed(self, texture: u64, rest: Seq<PassView>, loaded: Set<u64>) -> bool {
        ||| texture == self.backbuffer
        ||| self.ever_sampled.contains(texture)
        ||| loaded.contains(texture)
        ||| exists|j: int|
            0 <= j < rest.len() && (#[trigger] rest[j]).reads_texture(texture, self.twin_to_base)
    }

    /// Rule H on a run of passes, decided from the last one on: the passes, and the textures
    /// that those which keep their colour load.
    pub open spec fn colorless_passes(self, ps: Seq<PassView>, alt: Map<u64, u64>) -> (
        Seq<PassView>,
        Set<u64>,
    )
        decreases ps.len(),
    {
        if ps.len() == 0 {
            (Seq::empty(), Set::empty())
        } else {
            let (rest, loaded) = self.colorless_passes(ps.drop_first(), alt);
            let p = ps[0];
            if p.color_is_removable(alt) && (p.quad_ranges.len() == 0 || !self.color_observed_later(
                p,
                rest,
                loaded,
            )) {
                (seq![p.color_removed(alt)] + rest, loaded)
            } else {
                (seq![p] + rest, loaded.union(p.color_loads()))
            }
        }
    }

    // -- frames -------------------------------------------------------------------------

    /// The pool after the vectors of `n` passes were offered to it.
    pub open spec fn pool_after_push(pooled: nat, n: nat) -> nat {
        if pooled >= MAX_CMD_VEC_POOL {
            pooled
        } else if pooled + n > MAX_CMD_VEC_POOL {
            MAX_CMD_VEC_POOL as nat
        } else {
            pooled + n
        }
    }

    /// The start of a frame, or of its continuation after a flush.
    pub open spec fn frame_started(self, r: FrameReset) -> PassStateView {
        let count = at_least_one(r.backbuffer_sample_count);
        let twins = (if self.backbuffer != r.backbuffer {
            self.without_twin(self.twin_of(self.backbuffer))
        } else {
            self
        }).with_twin(r.backbuffer_srgb, r.backbuffer);
        let s = PassStateView {
            passes: Seq::empty(),
            closed: true,
            color_texture: r.backbuffer,
            color_msaa: r.backbuffer_msaa,
            color_msaa_srgb: r.backbuffer_msaa_srgb,
            color_sample_count: count,
            color_subresource: 0,
            color_size: (
                r.render_scale.dimension_spec(r.backbuffer_size.0),
                r.render_scale.dimension_spec(r.backbuffer_size.1),
            ),
            color_logical_size: r.backbuffer_size,
            color_format: r.backbuffer_format,
            color_scale: r.render_scale,
            extra: Self::no_extras(),
            extra_present: Seq::new(3, |i: int| false),
            depth_texture: r.depth_texture,
            depth_level: 0,
            depth_size: r.depth_size,
            depth_sample_count: count,
            attachments: CurrentAttachmentFlags {
                color_has_alpha: true,
                depth_sampleable: false,
                depth_has_stencil: r.depth_has_stencil,
            },
            pending_color_clear: None,
            pending_depth_clear: None,
            pending_stencil_clear: None,
            last_emitted_viewport: None,
            pending_leading_blits: Seq::empty(),
            seen_color: if r.continues_frame {
                self.seen_color
            } else {
                Set::empty()
            },
            seen_depth: if r.continues_frame {
                self.seen_depth
            } else {
                Set::empty()
            },
            segment_color: Set::empty(),
            segment_depth: Set::empty(),
            blit_written: Set::empty(),
            backbuffer: r.backbuffer,
            backbuffer_logical_size: r.backbuffer_size,
            render_scale: r.render_scale,
            frame_sampled: Set::empty(),
            twin_to_base: twins.twin_to_base,
            base_to_twin: twins.base_to_twin,
            caster_writes: Map::empty(),
            cascade_samples: Map::empty(),
            frame_seq: if self.frame_seq == u64::MAX {
                0
            } else {
                (self.frame_seq + 1) as u64
            },
            upload_pass_end: 0,
            drawn_ranges: Map::empty(),
            pooled: Self::pool_after_push(self.pooled, self.passes.len()),
            ..self
        };
        s.srgb_resolved()
    }

    /// A state that never saw a frame.
    pub open spec fn is_initial(self) -> bool {
        &&& self.passes == Seq::<PassView>::empty()
        &&& self.closed
        &&& self.color_texture == 0 && self.color_srgb == 0
        &&& self.color_msaa == 0 && self.color_msaa_srgb == 0
        &&& self.color_sample_count == 1 && self.color_subresource == 0
        &&& self.color_size == (0u32, 0u32) && self.color_logical_size == (0u32, 0u32)
        &&& self.color_format == PixelFormat::Bgra8Unorm
        &&& self.color_scale == RenderScale::identity_spec()
        &&& self.extra == Self::no_extras()
        &&& self.extra_present == Seq::new(3, |i: int| false)
        &&& self.extra_srgb == Seq::new(3, |i: int| 0u64)
        &&& self.depth_texture == 0 && self.depth_level == 0
        &&& self.depth_size == (0u32, 0u32) && self.depth_sample_count == 1
        &&& self.attachments == (CurrentAttachmentFlags {
            color_has_alpha: true,
            depth_sampleable: false,
            depth_has_stencil: false,
        })
        &&& !self.has_pending_clear()
        &&& self.game_viewport == (0u32, 0u32, 0u32, 0u32)
        &&& self.min_z == 0 && self.max_z == F32_ONE
        &&& self.last_emitted_viewport is None
        &&& self.pending_leading_blits == Seq::<BlitCommand>::empty()
        &&& self.seen_color == Set::<(u64, u32)>::empty()
        &&& self.seen_depth == Set::<u64>::empty()
        &&& self.segment_color == Set::<(u64, u32)>::empty()
        &&& self.segment_depth == Set::<u64>::empty()
        &&& self.blit_written == Set::<u64>::empty()
        &&& self.backbuffer == 0 && self.backbuffer_logical_size == (0u32, 0u32)
        &&& self.render_scale == RenderScale::identity_spec()
        &&& self.ever_sampled == Set::<u64>::empty()
        &&& self.frame_sampled == Set::<u64>::empty()
        &&& self.twin_to_base == Map::<u64, u64>::empty()
        &&& self.base_to_twin == Map::<u64, u64>::empty()
        &&& !self.srgb_write_enabled && !self.pass_srgb_write
        &&& self.sampleable_depth == Set::<u64>::empty()
        &&& !self.cascade_probe
        &&& self.caster_writes == Map::<u64, u32>::empty()
        &&& self.cascade_samples == Map::<u64, u32>::empty()
        &&& self.frame_seq == 0 && self.upload_pass_end == 0
        &&& self.drawn_ranges == Map::<u64, DirtyRange>::empty()
        &&& self.pooled == 0
    }
}

} // verus!
