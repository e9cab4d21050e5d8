//! Bindings: render targets, the depth attachment, and sRGB views.

use super::attachment::ExtraColorSlot;
use super::model::PassStateView;
use super::{PassState, SavedColorAttachments};
use crate::fx::{
    map_get, map_insert, map_remove, set_contains, set_insert, set_remove, sub_forget_texture,
};
use crate::metal::{PixelFormat, RenderScale};
use vstd::prelude::*;

verus! {

impl PassState {
    /// The registered sRGB view of `base`, zero for none.
    pub(super) fn twin_of(&self, base: u64) -> (r: u64)
        ensures
            r == self@.twin_of(base),
    {
        match map_get(&self.base_to_twin, base) {
            Some(twin) => twin,
            None => 0,
        }
    }

    /// Registers a view in both directions; says whether it did.
    pub(super) fn store_srgb_twin(&mut self, twin: u64, base: u64) -> (r: bool)
        ensures
            final(self)@ == old(self)@.with_twin(twin, base),
            r == (twin != 0 && base != 0),
            final(self).realloc_bytes() == old(self).realloc_bytes(),
    {
        if twin == 0 || base == 0 {
            return false;
        }
        map_insert(&mut self.twin_to_base, twin, base);
        map_insert(&mut self.base_to_twin, base, twin);
        true
    }

    /// Forgets a view; says whether it was registered.
    pub(super) fn drop_srgb_twin(&mut self, twin: u64) -> (r: bool)
        ensures
            final(self)@ == old(self)@.without_twin(twin),
            r == (twin != 0 && old(self)@.twin_to_base.contains_key(twin)),
            final(self).realloc_bytes() == old(self).realloc_bytes(),
    {
        if twin == 0 {
            return false;
        }
        match map_remove(&mut self.twin_to_base, twin) {
            Some(base) => {
                let _ = map_remove(&mut self.base_to_twin, base);
                true
            },
            None => {
                assert(self@ =~= old(self)@);
                false
            },
        }
    }

    fn extra_srgb_ready(&self, i: usize) -> (r: bool)
        requires
            i < 3,
        ensures
            r == (!self@.extra_present[i as int] || (self@.twin_of(self@.extra[i as int].texture)
                != 0 && PassStateView::companion_twin_present(
                self@.extra[i as int].msaa_texture,
                self@.extra[i as int].msaa_srgb_texture,
            ))),
    {
        !self.extra_present[i] || (self.twin_of(self.extra[i].texture) != 0 && (
        self.extra[i].msaa_texture == 0 || self.extra[i].msaa_srgb_texture != 0))
    }

    /// Whether every colour attachment of the next pass has an sRGB view.
    fn srgb_write_is_attachable(&self) -> (r: bool)
        ensures
            r == self@.srgb_attachable(),
    {
        let r: bool = self.color_texture != 0 && self.twin_of(self.color_texture) != 0 && (
        self.color_msaa == 0 || self.color_msaa_srgb != 0) && self.extra_srgb_ready(0)
            && self.extra_srgb_ready(1) && self.extra_srgb_ready(2);
        assert(self@.extra_present[0] == self.extra_present[0]);
        assert(self@.extra_present[1] == self.extra_present[1]);
        assert(self@.extra_present[2] == self.extra_present[2]);
        r
    }

    /// Looks the sRGB views of the bound targets up again.
    pub(super) fn recompute_srgb_write(&mut self)
        ensures
            final(self)@ == old(self)@.srgb_resolved(),
            final(self).realloc_bytes() == old(self).realloc_bytes(),
    {
        let color: u64 = self.twin_of(self.color_texture);
        let extra: [u64; 3] = [
            self.twin_of(self.extra[0].texture),
            self.twin_of(self.extra[1].texture),
            self.twin_of(self.extra[2].texture),
        ];
        self.pass_srgb_write = self.srgb_write_enabled && self.srgb_write_is_attachable();
        self.color_srgb = color;
        self.extra_srgb = extra;
        assert(self@ =~= old(self)@.srgb_resolved());
    }

    /// Looks the views up again and ends the pass first if the choice of views changes, so
    /// that a waiting clear still goes through the outgoing ones.
    fn apply_srgb_write_change(&mut self)
        ensures
            final(self)@ == old(self)@.srgb_applied(),
            final(self).realloc_bytes() == old(self).realloc_bytes(),
    {
        if self.pass_srgb_write != (self.srgb_write_enabled && self.srgb_write_is_attachable()) {
            self.release_color();
        }
        self.recompute_srgb_write();
    }

    /// Gives a waiting colour clear its pass, and ends the open one.
    fn release_color(&mut self)
        ensures
            final(self)@ == old(self)@.color_released(),
            final(self).realloc_bytes() == old(self).realloc_bytes(),
    {
        if self.pending_color_clear.is_some() {
            self.flush_pending_clears();
        }
        self.end_current_pass();
    }

    /// Gives waiting depth and stencil clears their pass, and ends the open one.
    fn release_depth(&mut self)
        ensures
            final(self)@ == old(self)@.depth_released(),
            final(self).realloc_bytes() == old(self).realloc_bytes(),
    {
        if self.pending_depth_clear.is_some() || self.pending_stencil_clear.is_some() {
            self.flush_pending_clears();
        }
        self.end_current_pass();
    }

    /// The pixel format of the view attached as render target 0.
    pub(super) fn color_attachment_format(&self) -> (r: PixelFormat)
        ensures
            r == self@.color_attachment_format(),
    {
        if self.pass_srgb_write {
            if let Some(twin) = self.color_format.srgb_twin() {
                return twin;
            }
        }
        self.color_format
    }

    /// The pixel format of the view attached as render target `index + 1`.
    pub(super) fn extra_attachment_format(&self, index: usize) -> (r: PixelFormat)
        requires
            index < 3,
        ensures
            r == self@.extra_attachment_format(index as int),
    {
        let format: PixelFormat = self.extra[index].format;
        if self.pass_srgb_write && self.extra_present[index] {
            if let Some(twin) = format.srgb_twin() {
                return twin;
            }
        }
        format
    }

    fn extra_takes_part(&self, i: usize) -> (r: bool)
        requires
            i < 3,
        ensures
            r == self@.extra_takes_part(i as int),
    {
        self.extra[i].is_bound() && self.extra[i].sample_count == self.color_sample_count
            && self.extra[i].size.0 == self.color_size.0 && self.extra[i].size.1
            == self.color_size.1
    }

    /// Works out again which of render targets 1 to 3 take part in a pass.
    fn recompute_extra_present_mask(&mut self)
        ensures
            final(self)@ == old(self)@.extras_resolved(),
            final(self).realloc_bytes() == old(self).realloc_bytes(),
    {
        let present: [bool; 3] = [
            self.extra_takes_part(0),
            self.extra_takes_part(1),
            self.extra_takes_part(2),
        ];
        self.extra_present = present;
        assert(self@ =~= (PassStateView {
            extra_present: Seq::new(3, |i: int| old(self)@.extra_takes_part(i)),
            ..old(self)@
        }));
        self.recompute_srgb_write();
    }

    fn resolve_targets(&mut self)
        ensures
            final(self)@ == old(self)@.targets_resolved(),
            final(self).realloc_bytes() == old(self).realloc_bytes(),
    {
        if self.has_extra_color_targets() {
            self.recompute_extra_present_mask();
        } else {
            self.recompute_srgb_write();
        }
    }

    /// Drops every record about a texture whose storage is gone.
    pub fn unregister_texture(&mut self, texture: u64)
        ensures
            final(self)@ == old(self)@.forgotten(texture),
            final(self).realloc_bytes() == old(self).realloc_bytes(),
    {
        if texture == 0 {
            return;
        }
        sub_forget_texture(&mut self.seen_color, texture);
        sub_forget_texture(&mut self.segment_color, texture);
        self.forget_depth(texture);
    }

    fn forget_depth(&mut self, texture: u64)
        ensures
            final(self)@ == old(self)@.depth_forgotten(texture),
            final(self).realloc_bytes() == old(self).realloc_bytes(),
    {
        let _ = set_remove(&mut self.seen_depth, texture);
        let _ = set_remove(&mut self.segment_depth, texture);
        let _ = set_remove(&mut self.blit_written, texture);
        let _ = set_remove(&mut self.ever_sampled, texture);
        let _ = set_remove(&mut self.frame_sampled, texture);
        let _ = set_remove(&mut self.sampleable_depth, texture);
        let _ = map_remove(&mut self.caster_writes, texture);
        let _ = map_remove(&mut self.cascade_samples, texture);
    }

    /// Attaches a multisampled companion to render target 0, or takes it off.
    pub fn set_color_msaa(&mut self, msaa: u64, msaa_srgb: u64, sample_count: u8)
        ensures
            final(self)@ == old(self)@.with_color_msaa(msaa, msaa_srgb, sample_count),
            final(self).realloc_bytes() == old(self).realloc_bytes(),
    {
        self.color_msaa = msaa;
        if msaa == 0 {
            self.color_msaa_srgb = 0;
            self.color_sample_count = 1;
        } else {
            self.color_msaa_srgb = msaa_srgb;
            self.color_sample_count = if sample_count == 0 {
                1
            } else {
                sample_count
            };
        }
        self.apply_srgb_write_change();
    }

    /// Declares the sample count of the depth attachment.
    pub fn set_depth_sample_count(&mut self, sample_count: u8)
        ensures
            final(self)@ == (PassStateView {
                depth_sample_count: super::model::at_least_one(sample_count),
                ..old(self)@
            }),
            final(self).realloc_bytes() == old(self).realloc_bytes(),
    {
        self.depth_sample_count = if sample_count == 0 {
            1
        } else {
            sample_count
        };
    }

    /// Declares whether render target 0 has an alpha channel.
    pub fn set_color_rt_has_alpha(&mut self, has_alpha: bool)
        ensures
            final(self)@ == old(self)@.with_color_alpha(has_alpha),
            final(self).realloc_bytes() == old(self).realloc_bytes(),
    {
        self.attachments.color_has_alpha = has_alpha;
    }

    /// Binds or unbinds render target `slot`, 1 to 3. Its extent follows from the logical
    /// size and the scale. Anything but the same texture, subresource, format and extent
    /// ends the pass.
    pub fn set_extra_color_render_target(&mut self, slot: usize, binding: Option<ExtraColorSlot>)
        requires
            1 <= slot <= 3,
        ensures
            final(self)@ == old(self)@.with_extra(
                slot - 1,
                (match binding {
                    Some(b) => b,
                    None => ExtraColorSlot::none_spec(),
                }),
            ),
            final(self).realloc_bytes() == old(self).realloc_bytes(),
    {
        let mut binding: ExtraColorSlot = match binding {
            Some(b) => b,
            None => ExtraColorSlot::none(),
        };
        binding.size = (
            binding.scale.dimension(binding.logical_size.0),
            binding.scale.dimension(binding.logical_size.1),
        );
        let index: usize = slot - 1;
        let current: ExtraColorSlot = self.extra[index];
        if !(current.texture == binding.texture && current.subresource == binding.subresource
            && current.format == binding.format && current.size.0 == binding.size.0
            && current.size.1 == binding.size.1) {
            self.release_color();
        }
        self.extra[index] = binding;
        self.recompute_extra_present_mask();
    }

    /// Takes the colour bindings off, leaving only render target 0 bound.
    pub fn take_color_attachments(&mut self) -> (r: SavedColorAttachments)
        ensures
            r@ == old(self)@.saved_color(),
            final(self)@ == old(self)@.extras_taken(),
            final(self).realloc_bytes() == old(self).realloc_bytes(),
    {
        let none: ExtraColorSlot = ExtraColorSlot::none();
        let had_extras: bool = self.has_extra_color_targets();
        let saved: SavedColorAttachments = SavedColorAttachments {
            texture: self.color_texture,
            msaa_texture: self.color_msaa,
            msaa_srgb_texture: self.color_msaa_srgb,
            sample_count: self.color_sample_count,
            slice: self.color_subresource & 0xff,
            level: self.color_subresource >> 8,
            logical_size: self.color_logical_size,
            format: self.color_format,
            scale: self.color_scale,
            has_alpha: self.attachments.color_has_alpha,
            extra: self.extra,
        };
        self.extra = [none, none, none];
        assert(self@ =~= (PassStateView { extra: PassStateView::no_extras(), ..old(self)@ }));
        if had_extras {
            self.release_color();
        }
        self.recompute_extra_present_mask();
        saved
    }

    /// Puts bindings back that [`Self::take_color_attachments`] took.
    pub fn restore_color_attachments(&mut self, saved: SavedColorAttachments)
        ensures
            final(self)@ == old(self)@.color_restored(saved@),
            final(self).realloc_bytes() == old(self).realloc_bytes(),
    {
        self.set_color_render_target_subresource(
            saved.texture,
            saved.logical_size.0,
            saved.logical_size.1,
            saved.format,
            saved.scale,
            (saved.slice, saved.level),
        );
        self.set_color_rt_has_alpha(saved.has_alpha);
        self.set_color_msaa(saved.msaa_texture, saved.msaa_srgb_texture, saved.sample_count);
        let same: bool = self.extra[0].same_as(&saved.extra[0]) && self.extra[1].same_as(
            &saved.extra[1],
        ) && self.extra[2].same_as(&saved.extra[2]);
        assert(self@.extra[0] == self.extra[0] && self@.extra[1] == self.extra[1] && self@.extra[2]
            == self.extra[2]);
        assert(saved@.extra[0] == saved.extra[0] && saved@.extra[1] == saved.extra[1]
            && saved@.extra[2] == saved.extra[2]);
        assert(same <==> self@.extra =~= saved@.extra);
        if !same {
            self.release_color();
            self.extra = saved.extra;
        }
        self.recompute_extra_present_mask();
    }

    /// Notes that something outside the recorded passes reads a colour texture.
    pub fn note_color_read_back(&mut self, handle: u64)
        ensures
            final(self)@ == (PassStateView {
                ever_sampled: PassStateView::with_nonzero(old(self)@.ever_sampled, handle),
                ..old(self)@
            }),
            final(self).realloc_bytes() == old(self).realloc_bytes(),
    {
        self.note_texture_read(handle);
    }

    /// Notes a read of a texture that no recorded command shows.
    pub fn note_texture_read(&mut self, handle: u64)
        ensures
            final(self)@ == (PassStateView {
                ever_sampled: PassStateView::with_nonzero(old(self)@.ever_sampled, handle),
                ..old(self)@
            }),
            final(self).realloc_bytes() == old(self).realloc_bytes(),
    {
        if handle != 0 {
            let _ = set_insert(&mut self.ever_sampled, handle);
        }
    }

    /// Registers `twin` as the sRGB view of `base`.
    pub fn register_srgb_twin(&mut self, twin: u64, base: u64)
        ensures
            final(self)@ == (if twin != 0 && base != 0 {
                old(self)@.with_twin(twin, base).srgb_applied()
            } else {
                old(self)@
            }),
            final(self).realloc_bytes() == old(self).realloc_bytes(),
    {
        if self.store_srgb_twin(twin, base) {
            self.apply_srgb_write_change();
        }
    }

    /// Forgets an sRGB view.
    pub fn unregister_srgb_twin(&mut self, twin: u64)
        ensures
            final(self)@ == (if twin != 0 && old(self)@.twin_to_base.contains_key(twin) {
                old(self)@.without_twin(twin).srgb_applied()
            } else {
                old(self)@
            }),
            final(self).realloc_bytes() == old(self).realloc_bytes(),
    {
        if self.drop_srgb_twin(twin) {
            self.apply_srgb_write_change();
        }
    }

    /// Turns writing through sRGB views on or off for what is drawn or cleared next.
    pub fn set_srgb_write_enabled(&mut self, enabled: bool)
        ensures
            final(self)@ == (if old(self)@.srgb_write_enabled == enabled {
                old(self)@
            } else {
                (PassStateView { srgb_write_enabled: enabled, ..old(self)@ }).srgb_applied()
            }),
            final(self).realloc_bytes() == old(self).realloc_bytes(),
    {
        if self.srgb_write_enabled == enabled {
            return;
        }
        self.srgb_write_enabled = enabled;
        self.apply_srgb_write_change();
    }

    /// Binds slice 0, level 0 of a texture as render target 0.
    pub fn set_color_render_target(
        &mut self,
        texture: u64,
        width: u32,
        height: u32,
        format: PixelFormat,
        scale: RenderScale,
    )
        ensures
            final(self)@ == old(self)@.with_color_target(texture, (width, height), format, scale, 0),
            final(self).realloc_bytes() == old(self).realloc_bytes(),
    {
        assert(0u32 | (0u32 << 8) == 0) by (bit_vector);
        self.set_color_render_target_subresource(texture, width, height, format, scale, (0, 0));
    }

    /// Binds one slice and mip level of a texture as render target 0. `width` and `height`
    /// are the logical size. A multisampled companion has to be attached anew.
    pub fn set_color_render_target_subresource(
        &mut self,
        texture: u64,
        width: u32,
        height: u32,
        format: PixelFormat,
        scale: RenderScale,
        subresource: (u32, u32),
    )
        ensures
            final(self)@ == old(self)@.with_color_target(
                texture,
                (width, height),
                format,
                scale,
                super::model::packed_subresource(subresource.0, subresource.1),
            ),
            final(self).realloc_bytes() == old(self).realloc_bytes(),
    {
        self.color_msaa = 0;
        self.color_msaa_srgb = 0;
        self.color_sample_count = 1;
        self.color_scale = scale;
        self.color_logical_size = (width, height);
        let w: u32 = scale.dimension(width);
        let h: u32 = scale.dimension(height);
        let packed: u32 = subresource.0 | (subresource.1 << 8);
        if self.color_texture == texture && self.color_subresource == packed && self.color_format
            == format && self.color_size.0 == w && self.color_size.1 == h {
            self.resolve_targets();
            return;
        }
        self.release_color();
        self.color_texture = texture;
        self.color_subresource = packed;
        self.color_size = (w, h);
        self.color_format = format;
        self.resolve_targets();
    }

    /// Binds level 0 of a texture as the depth-stencil attachment, or nothing for zero.
    pub fn set_depth_stencil_attachment(
        &mut self,
        texture: u64,
        size: (u32, u32),
        is_sampleable: bool,
        has_stencil: bool,
    )
        requires
            is_sampleable || texture == 0 || !old(self)@.sampleable_depth.contains(texture),
        ensures
            final(self)@ == old(self)@.with_depth_target(
                texture,
                0,
                size,
                is_sampleable,
                has_stencil,
            ),
            final(self).realloc_bytes() == old(self).realloc_bytes(),
    {
        self.set_depth_stencil_attachment_level(texture, 0, size, is_sampleable, has_stencil);
    }

    /// Binds a mip level of a texture as the depth-stencil attachment. A texture that was
    /// bound as sampleable stays sampleable.
    pub fn set_depth_stencil_attachment_level(
        &mut self,
        texture: u64,
        level: u32,
        size: (u32, u32),
        is_sampleable: bool,
        has_stencil: bool,
    )
        requires
            is_sampleable || texture == 0 || !old(self)@.sampleable_depth.contains(texture),
        ensures
            final(self)@ == old(self)@.with_depth_target(
                texture,
                level,
                size,
                is_sampleable,
                has_stencil,
            ),
            final(self).realloc_bytes() == old(self).realloc_bytes(),
    {
        self.depth_sample_count = 1;
        if is_sampleable && texture != 0 {
            let _ = set_insert(&mut self.sampleable_depth, texture);
        }
        self.attachments.depth_has_stencil = has_stencil;
        if self.depth_texture == texture && self.depth_level == level
            && self.attachments.depth_sampleable == is_sampleable {
            return;
        }
        self.attachments.depth_sampleable = is_sampleable;
        self.release_depth();
        self.depth_texture = texture;
        self.depth_level = level;
        self.depth_size = size;
    }

    /// Unbinds a depth texture whose storage is going away, and forgets it.
    pub fn retire_depth_texture(&mut self, texture: u64)
        ensures
            final(self)@ == old(self)@.depth_retired(texture),
            final(self).realloc_bytes() == old(self).realloc_bytes(),
    {
        if texture == 0 {
            return;
        }
        if self.depth_texture == texture {
            self.set_depth_stencil_attachment(0, (0, 0), false, false);
        }
        self.forget_depth(texture);
    }

    /// Turns the cascade counters on or off.
    pub fn set_cascade_probe(&mut self, enabled: bool)
        ensures
            final(self)@ == (PassStateView { cascade_probe: enabled, ..old(self)@ }),
            final(self).realloc_bytes() == old(self).realloc_bytes(),
    {
        self.cascade_probe = enabled;
    }

    /// Counts a draw onto a depth texture that is known to be sampleable, while the counters
    /// are on.
    pub fn note_caster_draw(&mut self, depth_tex: u64)
        ensures
            final(self)@ == (if old(self)@.cascade_probe && depth_tex != 0
                && old(self)@.sampleable_depth.contains(depth_tex) {
                PassStateView {
                    caster_writes: PassStateView::counted(old(self)@.caster_writes, depth_tex),
                    ..old(self)@
                }
            } else {
                old(self)@
            }),
            final(self).realloc_bytes() == old(self).realloc_bytes(),
    {
        if !self.cascade_probe {
            return;
        }
        if depth_tex == 0 || !set_contains(&self.sampleable_depth, depth_tex) {
            return;
        }
        let count: u32 = match map_get(&self.caster_writes, depth_tex) {
            Some(c) => c,
            None => 0,
        };
        map_insert(&mut self.caster_writes, depth_tex, count.wrapping_add(1));
    }
}

} // verus!
