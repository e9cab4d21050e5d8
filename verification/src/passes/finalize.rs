//! The rules that settle a recorded frame, but for the store actions.

use super::attachment::PassColorAttachment;
use super::emit::blit_written_texture;
use super::model::{
    blit_reads, blit_written_texture_spec, blits_write, command_samples, view_shows, PassStateView, PassView,
};
use super::{ColorLoad, CommandList, DepthLoad, Pass, PassState, StencilLoad, StoreAction};
use crate::fx::{map_get, set_contains, set_insert};
use crate::metal::{BlitCommand, BlitCommandType, Command, CommandType};
use rustc_hash::{FxHashMap, FxHashSet};
use vstd::prelude::*;

verus! {

impl Pass {
    /// Three extra attachments.
    pub(super) proof fn lemma_shape(&self)
        ensures
            self@.extra.len() == 3,
            self@.color_at(0) == self.color,
            self@.color_at(1) == self.extra_color[0],
            self@.color_at(2) == self.extra_color[1],
            self@.color_at(3) == self.extra_color[2],
    {
    }

    /// The attachment in colour slot `slot`.
    pub(super) fn color_at(&self, slot: usize) -> (r: PassColorAttachment)
        requires
            slot < 4,
        ensures
            r == self@.color_at(slot as int),
    {
        if slot == 0 {
            self.color
        } else {
            self.extra_color[slot - 1]
        }
    }

    /// Whether a command of the pass draws.
    pub(super) fn has_draw(&self) -> (r: bool)
        ensures
            r == self@.has_draw(),
    {
        let mut i: usize = 0;
        while i < self.list.commands.len()
            invariant
                i <= self.list.commands@.len(),
                forall|j: int| 0 <= j < i ==> !(#[trigger] self.list.commands@[j]).is_draw_spec(),
            decreases self.list.commands@.len() - i,
        {
            if self.list.commands[i].is_draw() {
                assert(self@.commands[i as int].is_draw_spec());
                return true;
            }
            i += 1;
        }
        false
    }

    fn settle_extra_load(&mut self, k: usize, sampled: &FxHashSet<u64>)
        requires
            k < 3,
        ensures
            final(self)@ == (PassView {
                extra: old(self)@.extra.update(
                    k as int,
                    ({
                        let a = old(self)@.extra[k as int];
                        if a.is_bound_spec() && a.load is DontCare && sampled@.contains(a.texture) {
                            PassColorAttachment { load: ColorLoad::Load, ..a }
                        } else {
                            a
                        }
                    }),
                ),
                ..old(self)@
            }),
    {
        let mut a: PassColorAttachment = self.extra_color[k];
        if a.is_bound() && a.load == ColorLoad::DontCare && set_contains(sampled, a.texture) {
            a.load = ColorLoad::Load;
        }
        self.extra_color[k] = a;
    }

    fn settle_loads(&mut self, sampled: &FxHashSet<u64>)
        ensures
            final(self)@ == old(self)@.loads_settled(sampled@),
    {
        if self.color.load == ColorLoad::DontCare && set_contains(sampled, self.color.texture) {
            self.color.load = ColorLoad::Load;
        }
        self.settle_extra_load(0, sampled);
        self.settle_extra_load(1, sampled);
        self.settle_extra_load(2, sampled);
        if self.depth_load == DepthLoad::DontCare && set_contains(sampled, self.depth_texture) {
            self.depth_load = DepthLoad::Load;
        }
        if self.stencil_load == StencilLoad::DontCare && set_contains(sampled, self.depth_texture) {
            self.stencil_load = StencilLoad::Load;
        }
        assert(self@.extra =~= old(self)@.loads_settled(sampled@).extra);
    }

    fn strip_extra(&mut self, k: usize)
        requires
            k < 3,
        ensures
            final(self)@ == (PassView {
                extra: old(self)@.extra.update(
                    k as int,
                    ({
                        let a = old(self)@.extra[k as int];
                        if a.is_bound_spec() && a.store is DontCare && a.resolve_texture == 0 {
                            PassColorAttachment::none_spec()
                        } else {
                            a
                        }
                    }),
                ),
                ..old(self)@
            }),
    {
        let mut a: PassColorAttachment = self.extra_color[k];
        if a.is_bound() && a.store == StoreAction::DontCare && a.resolve_texture == 0 {
            a = PassColorAttachment::none();
        }
        self.extra_color[k] = a;
    }

    fn drop_color_image(&mut self)
        ensures
            final(self)@ == (PassView { color: old(self)@.color.stripped(), ..old(self)@ }),
    {
        self.color.texture = 0;
        self.color.subresource = 0;
        self.color.load = ColorLoad::DontCare;
        self.color.store = StoreAction::DontCare;
    }

    fn strip_dead_color(&mut self)
        ensures
            final(self)@ == old(self)@.dead_color_stripped(),
    {
        if self.has_draw() || self.leading_blits.len() != 0 {
            return;
        }
        self.strip_extra(0);
        self.strip_extra(1);
        self.strip_extra(2);
        if self.color.texture != 0 && self.color.store == StoreAction::DontCare
            && self.color.resolve_texture == 0 && self.depth_texture != 0 {
            self.drop_color_image();
        }
        assert(self@.extra =~= old(self)@.dead_color_stripped().extra);
    }

    /// Whether a colour attachment is resolved when the pass ends.
    fn resolves_color(&self) -> (r: bool)
        ensures
            r == self@.resolves_color(),
    {
        proof {
            self.lemma_shape();
        }
        self.color.resolve_texture != 0 || self.extra_color[0].resolve_texture != 0
            || self.extra_color[1].resolve_texture != 0 || self.extra_color[2].resolve_texture != 0
    }

    fn slot_stores(&self, slot: usize) -> (r: bool)
        requires
            slot < 4,
        ensures
            r == (self@.color_at(slot as int).is_bound_spec() && self@.color_at(
                slot as int,
            ).store is Store),
    {
        let a: PassColorAttachment = self.color_at(slot);
        a.is_bound() && a.store == StoreAction::Store
    }

    fn is_observable(&self) -> (r: bool)
        ensures
            r == self@.is_observable(),
    {
        proof {
            self.lemma_shape();
        }
        if self.has_draw() || self.leading_blits.len() != 0 {
            return true;
        }
        let stores_color: bool = self.slot_stores(0) || self.slot_stores(1) || self.slot_stores(2)
            || self.slot_stores(3);
        self.resolves_color() || stores_color || (self.depth_texture != 0 && (self.depth_store
            == StoreAction::Store || self.depth_resolve_texture != 0))
    }

    /// Whether command `idx` belongs to a painted colour clear.
    fn in_clear_quad(&self, idx: usize) -> (r: bool)
        ensures
            r == self@.in_quad(idx as int),
    {
        let mut k: usize = 0;
        while k < self.list.color_clear_quad_ranges.len()
            invariant
                k <= self.list.color_clear_quad_ranges@.len(),
                forall|j: int|
                    0 <= j < k ==> !((#[trigger] self.list.color_clear_quad_ranges@[j]).0 <= idx
                        < self.list.color_clear_quad_ranges@[j].1),
            decreases self.list.color_clear_quad_ranges@.len() - k,
        {
            let range: (usize, usize) = self.list.color_clear_quad_ranges[k];
            if range.0 <= idx && idx < range.1 {
                assert(self@.quad_ranges[k as int].0 <= idx < self@.quad_ranges[k as int].1);
                return true;
            }
            k += 1;
        }
        false
    }

    fn has_real_draw(&self) -> (r: bool)
        ensures
            r == self@.has_real_draw(),
    {
        let mut i: usize = 0;
        while i < self.list.commands.len()
            invariant
                i <= self.list.commands@.len(),
                forall|j: int|
                    0 <= j < i ==> !((#[trigger] self.list.commands@[j]).is_draw_spec()
                        && !self@.in_quad(j)),
            decreases self.list.commands@.len() - i,
        {
            if self.list.commands[i].is_draw() && !self.in_clear_quad(i) {
                assert(self@.commands[i as int].is_draw_spec());
                return true;
            }
            i += 1;
        }
        false
    }

    fn pipelines_resolvable(&self, alt: &FxHashMap<u64, u64>) -> (r: bool)
        ensures
            r == self@.pipelines_resolvable(alt@),
    {
        let mut i: usize = 0;
        while i < self.list.commands.len()
            invariant
                i <= self.list.commands@.len(),
                forall|j: int|
                    0 <= j < i && (#[trigger] self.list.commands@[j]).cmd
                        == CommandType::SetRenderPipelineState && !self@.in_quad(j)
                        ==> alt@.contains_key(self.list.commands@[j].param_b),
            decreases self.list.commands@.len() - i,
        {
            let c: Command = self.list.commands[i];
            if c.cmd == CommandType::SetRenderPipelineState && !self.in_clear_quad(i) {
                if map_get(alt, c.param_b).is_none() {
                    assert(!alt@.contains_key(self@.commands[i as int].param_b));
                    return false;
                }
            }
            i += 1;
        }
        true
    }

    fn color_is_removable(&self, alt: &FxHashMap<u64, u64>) -> (r: bool)
        ensures
            r == self@.color_is_removable(alt@),
    {
        let clears: bool = match self.color.load {
            ColorLoad::Clear { r: _, g: _, b: _, a: _ } => true,
            _ => false,
        };
        !self.color_writes_observed && self.color.texture != 0 && self.depth_texture != 0
            && !self.resolves_color() && !clears && self.has_real_draw()
            && self.pipelines_resolvable(alt)
    }

    /// Takes the colour attachments off, with every painted colour clear, and binds the
    /// colourless variant of every pipeline.
    fn remove_color(&mut self, alt: &FxHashMap<u64, u64>)
        ensures
            final(self)@ == old(self)@.color_removed(alt@),
    {
        let mut kept: Vec<Command> = Vec::new();
        let mut i: usize = 0;
        while i < self.list.commands.len()
            invariant
                i <= self.list.commands@.len(),
                self@ == old(self)@,
                kept@ == self@.colorless_commands(alt@, i as nat),
            decreases self.list.commands@.len() - i,
        {
            if !self.in_clear_quad(i) {
                let mut c: Command = self.list.commands[i];
                if c.cmd == CommandType::SetRenderPipelineState {
                    if let Some(no_color) = map_get(alt, c.param_b) {
                        c.param_b = no_color;
                    }
                }
                kept.push(c);
            }
            i += 1;
        }
        let none: PassColorAttachment = PassColorAttachment::none();
        self.list = CommandList::new(kept);
        self.drop_color_image();
        self.extra_color = [none, none, none];
        assert(self@ =~= old(self)@.color_removed(alt@));
    }

    /// Adds the bound colour textures that the pass loads to a set.
    fn record_loads(&self, loaded: &mut FxHashSet<u64>)
        ensures
            final(loaded)@ == old(loaded)@.union(self@.color_loads()),
    {
        let mut slot: usize = 0;
        while slot < 4
            invariant
                slot <= 4,
                forall|t: u64|
                    #[trigger] loaded@.contains(t) <==> old(loaded)@.contains(t) || (t != 0
                        && exists|s: int|
                        0 <= s < slot && (#[trigger] self@.color_at(s)).texture == t
                            && self@.color_at(s).load is Load),
            decreases 4 - slot,
        {
            let a: PassColorAttachment = self.color_at(slot);
            if a.is_bound() && a.load == ColorLoad::Load {
                let _ = set_insert(loaded, a.texture);
            }
            slot += 1;
        }
        assert(loaded@ =~= old(loaded)@.union(self@.color_loads()));
    }
}

/// Whether a draw of the pass can sample a texture, or a blit before it reads it.
pub fn pass_reads_texture(pass: &Pass, target: u64, twin_to_base: &FxHashMap<u64, u64>) -> (r: bool)
    ensures
        r == pass@.reads_texture(target, twin_to_base@),
{
    if target == 0 {
        return false;
    }
    let mut i: usize = 0;
    while i < pass.list.commands.len()
        invariant
            target != 0,
            i <= pass.list.commands@.len(),
            forall|j: int|
                0 <= j < i ==> !command_samples(
                    #[trigger] pass.list.commands@[j],
                    target,
                    twin_to_base@,
                ),
        decreases pass.list.commands@.len() - i,
    {
        let c: Command = pass.list.commands[i];
        if c.cmd == CommandType::SetFragmentTexture {
            let through_twin: bool = match map_get(twin_to_base, c.param_b) {
                Some(base) => base == target,
                None => false,
            };
            if c.param_b == target || through_twin {
                assert(command_samples(pass@.commands[i as int], target, twin_to_base@));
                return true;
            }
        }
        i += 1;
    }
    let mut i: usize = 0;
    while i < pass.leading_blits.len()
        invariant
            target != 0,
            i <= pass.leading_blits@.len(),
            forall|j: int| 0 <= j < i ==> !blit_reads(#[trigger] pass.leading_blits@[j], target),
        decreases pass.leading_blits@.len() - i,
    {
        let b: BlitCommand = pass.leading_blits[i];
        let reads: bool = match b.cmd {
            BlitCommandType::CopyTextureToTexture => b.src_handle == target,
            BlitCommandType::GenerateMipmaps => b.dst_handle == target,
            _ => false,
        };
        if reads {
            assert(blit_reads(pass@.leading_blits[i as int], target));
            return true;
        }
        i += 1;
    }
    false
}

fn resolve_shows(view: u64, target: u64, twin_to_base: &FxHashMap<u64, u64>) -> (r: bool)
    ensures
        r == view_shows(view, target, twin_to_base@),
{
    view != 0 && (view == target || match map_get(twin_to_base, view) {
        Some(base) => base == target,
        None => false,
    })
}

/// Whether a colour resolve of the pass writes a texture, directly or through its sRGB view.
pub fn pass_resolves_into(pass: &Pass, target: u64, twin_to_base: &FxHashMap<u64, u64>) -> (r: bool)
    ensures
        r == pass@.resolves_into(target, twin_to_base@),
{
    proof {
        pass.lemma_shape();
    }
    target != 0 && (resolve_shows(pass.color.resolve_texture, target, twin_to_base)
        || resolve_shows(pass.extra_color[0].resolve_texture, target, twin_to_base)
        || resolve_shows(pass.extra_color[1].resolve_texture, target, twin_to_base)
        || resolve_shows(pass.extra_color[2].resolve_texture, target, twin_to_base))
}

fn slot_is(a: &PassColorAttachment, texture: u64, subresource: u32) -> (r: bool)
    ensures
        r == (a.texture == texture && a.subresource == subresource),
{
    a.texture == texture && a.subresource == subresource
}

/// Whether the pass draws into a subresource of a texture, in whichever colour slot.
pub fn pass_attaches_color(pass: &Pass, texture: u64, subresource: u32) -> (r: bool)
    ensures
        r == pass@.attaches_color(texture, subresource),
{
    proof {
        pass.lemma_shape();
    }
    texture != 0 && (slot_is(&pass.color, texture, subresource) || slot_is(
        &pass.extra_color[0],
        texture,
        subresource,
    ) || slot_is(&pass.extra_color[1], texture, subresource) || slot_is(
        &pass.extra_color[2],
        texture,
        subresource,
    ))
}

/// Whether one of the blits writes a texture.
pub fn blit_list_writes(blits: &Vec<BlitCommand>, target: u64) -> (r: bool)
    ensures
        r == blits_write(blits@, target),
{
    if target == 0 {
        return false;
    }
    let mut i: usize = 0;
    while i < blits.len()
        invariant
            i <= blits@.len(),
            forall|j: int|
                0 <= j < i ==> blit_written_texture_spec(#[trigger] blits@[j]) != Some(target),
        decreases blits@.len() - i,
    {
        if let Some(t) = blit_written_texture(&blits[i]) {
            if t == target {
                assert(blit_written_texture_spec(blits@[i as int]) == Some(target));
                return true;
            }
        }
        i += 1;
    }
    false
}

impl PassState {
    /// Takes Rule A's discards back where something samples the attachment.
    pub fn finalize_load_actions(&mut self)
        ensures
            final(self)@ == (PassStateView {
                passes: old(self)@.passes.map_values(
                    |p: PassView| p.loads_settled(old(self)@.ever_sampled),
                ),
                ..old(self)@
            }),
            final(self).realloc_bytes() == old(self).realloc_bytes(),
    {
        let ghost want = old(self)@.passes.map_values(
            |p: PassView| p.loads_settled(old(self)@.ever_sampled),
        );
        let n: usize = self.passes.len();
        let mut i: usize = 0;
        while i < n
            invariant
                i <= n,
                n == old(self)@.passes.len(),
                n == want.len(),
                want == old(self)@.passes.map_values(
                    |p: PassView| p.loads_settled(old(self)@.ever_sampled),
                ),
                self@ == (PassStateView {
                    passes: want.take(i as int) + old(self)@.passes.skip(i as int),
                    ..old(self)@
                }),
                self.realloc_bytes() == old(self).realloc_bytes(),
            decreases n - i,
        {
            let ghost before = self@;
            assert(before.passes.len() == n);
            assert(before.passes[i as int] == old(self)@.passes[i as int]);
            self.passes[i].settle_loads(&self.ever_sampled);
            assert(self@.passes =~= before.passes.update(i as int, want[i as int]));
            i += 1;
            assert(self@.passes =~= want.take(i as int) + old(self)@.passes.skip(i as int));
        }
        assert(self@.passes =~= want);
    }

    /// Rule G: takes colour attachments that nobody stores off passes that only clear.
    pub fn strip_dead_color_in_clear_only_passes(&mut self)
        ensures
            final(self)@ == (PassStateView {
                passes: old(self)@.passes.map_values(|p: PassView| p.dead_color_stripped()),
                ..old(self)@
            }),
            final(self).realloc_bytes() == old(self).realloc_bytes(),
    {
        let ghost want = old(self)@.passes.map_values(|p: PassView| p.dead_color_stripped());
        let n: usize = self.passes.len();
        let mut i: usize = 0;
        while i < n
            invariant
                i <= n,
                n == old(self)@.passes.len(),
                n == want.len(),
                want == old(self)@.passes.map_values(|p: PassView| p.dead_color_stripped()),
                self@ == (PassStateView {
                    passes: want.take(i as int) + old(self)@.passes.skip(i as int),
                    ..old(self)@
                }),
                self.realloc_bytes() == old(self).realloc_bytes(),
            decreases n - i,
        {
            let ghost before = self@;
            assert(before.passes.len() == n);
            assert(before.passes[i as int] == old(self)@.passes[i as int]);
            self.passes[i].strip_dead_color();
            assert(self@.passes =~= before.passes.update(i as int, want[i as int]));
            i += 1;
            assert(self@.passes =~= want.take(i as int) + old(self)@.passes.skip(i as int));
        }
        assert(self@.passes =~= want);
    }

    /// Rule F: drops passes of which nothing can be observed.
    pub fn cull_dead_clear_only_passes(&mut self)
        ensures
            final(self)@ == (PassStateView {
                passes: old(self)@.passes.filter(|p: PassView| p.is_observable()),
                ..old(self)@
            }),
            final(self).realloc_bytes() == old(self).realloc_bytes(),
    {
        let ghost ps = old(self)@.passes;
        let ghost keep = |p: PassView| p.is_observable();
        let ghost mut done: int = 0;
        let mut i: usize = 0;
        proof {
            assert(ps.take(0).filter(keep) =~= Seq::<PassView>::empty()) by {
                reveal(Seq::filter);
            }
            assert(self@.passes =~= ps.take(0).filter(keep) + ps.skip(0));
        }
        while i < self.passes.len()
            invariant
                ps == old(self)@.passes,
                keep == (|p: PassView| p.is_observable()),
                0 <= done <= ps.len(),
                i == ps.take(done).filter(keep).len(),
                self@ == (PassStateView {
                    passes: ps.take(done).filter(keep) + ps.skip(done),
                    ..old(self)@
                }),
                self.realloc_bytes() == old(self).realloc_bytes(),
            decreases ps.len() - done,
        {
            let ghost before = self@;
            proof {
                assert(before.passes[i as int] == ps[done]);
                assert(ps.take(done + 1).drop_last() =~= ps.take(done));
                reveal(Seq::filter);
            }
            if self.passes[i].is_observable() {
                i += 1;
                proof {
                    assert(before.passes =~= ps.take(done + 1).filter(keep) + ps.skip(done + 1));
                }
            } else {
                let _ = self.passes.remove(i);
                proof {
                    assert(self@.passes =~= before.passes.remove(i as int));
                    assert(self@.passes =~= ps.take(done + 1).filter(keep) + ps.skip(done + 1));
                }
            }
            proof {
                done = done + 1;
            }
        }
        proof {
            assert(self@.passes.len() == self.passes.len());
            assert(ps.take(done) =~= ps);
            assert(self@.passes =~= ps.filter(keep));
        }
    }

    /// Whether a texture is seen by anyone after pass `i`.
    fn texture_observed(&self, i: usize, texture: u64, loaded: &FxHashSet<u64>) -> (r: bool)
        requires
            i < self@.passes.len(),
        ensures
            r == self@.texture_observed(texture, self@.passes.skip(i + 1), loaded@),
    {
        let ghost rest = self@.passes.skip(i + 1);
        if texture == self.backbuffer || set_contains(&self.ever_sampled, texture) || set_contains(
            loaded,
            texture,
        ) {
            return true;
        }
        assert(i < self.passes.len());
        let mut j: usize = i + 1;
        while j < self.passes.len()
            invariant
                i < j <= self.passes@.len(),
                rest == self@.passes.skip(i + 1),
                forall|k: int|
                    0 <= k < j - i - 1 ==> !(#[trigger] rest[k]).reads_texture(
                        texture,
                        self@.twin_to_base,
                    ),
            decreases self.passes@.len() - j,
        {
            if pass_reads_texture(&self.passes[j], texture, &self.twin_to_base) {
                assert(rest[j - i - 1] == self@.passes[j as int]);
                return true;
            }
            assert(rest[j - i - 1] == self@.passes[j as int]);
            j += 1;
        }
        false
    }

    fn color_observed_later(&self, i: usize, loaded: &FxHashSet<u64>) -> (r: bool)
        requires
            i < self@.passes.len(),
        ensures
            r == self@.color_observed_later(
                self@.passes[i as int],
                self@.passes.skip(i + 1),
                loaded@,
            ),
    {
        let ghost p = self@.passes[i as int];
        let mut slot: usize = 0;
        while slot < 4
            invariant
                slot <= 4,
                i < self@.passes.len(),
                p == self@.passes[i as int],
                forall|s: int|
                    0 <= s < slot ==> !((#[trigger] p.color_at(s)).is_bound_spec()
                        && self@.texture_observed(
                        p.color_at(s).texture,
                        self@.passes.skip(i + 1),
                        loaded@,
                    )),
            decreases 4 - slot,
        {
            let a: PassColorAttachment = self.passes[i].color_at(slot);
            if a.is_bound() && self.texture_observed(i, a.texture, loaded) {
                assert(p.color_at(slot as int) == a);
                return true;
            }
            slot += 1;
        }
        false
    }

    /// Rule H: takes the colour attachments off passes whose draws write no colour. `alt`
    /// gives the colourless variant of a pipeline. A pass keeps its colour when a pipeline
    /// has none, or when somebody sees a colour clear painted in it.
    pub fn strip_color_from_no_color_draw_passes(&mut self, alt: &FxHashMap<u64, u64>)
        ensures
            final(self)@ == (PassStateView {
                passes: old(self)@.colorless_passes(old(self)@.passes, alt@).0,
                ..old(self)@
            }),
            final(self).realloc_bytes() == old(self).realloc_bytes(),
    {
        let ghost start = self@;
        let ghost ps = self@.passes;
        let mut loaded: FxHashSet<u64> = FxHashSet::default();
        let mut i: usize = self.passes.len();
        proof {
            assert(ps.skip(ps.len() as int) =~= Seq::<PassView>::empty());
            assert(self@.passes =~= ps.take(i as int) + start.colorless_passes(
                ps.skip(i as int),
                alt@,
            ).0);
        }
        while i > 0
            invariant
                i <= ps.len(),
                start == old(self)@,
                ps == start.passes,
                loaded@ == start.colorless_passes(ps.skip(i as int), alt@).1,
                start.colorless_passes(ps.skip(i as int), alt@).0.len() == ps.len() - i,
                self@ == (PassStateView {
                    passes: ps.take(i as int) + start.colorless_passes(ps.skip(i as int), alt@).0,
                    ..start
                }),
                self.realloc_bytes() == old(self).realloc_bytes(),
            decreases i,
        {
            i -= 1;
            let ghost before = self@;
            let ghost rest = start.colorless_passes(ps.skip(i + 1), alt@).0;
            proof {
                assert(ps.skip(i as int).drop_first() =~= ps.skip(i + 1));
                assert(ps.skip(i as int)[0] == ps[i as int]);
                assert(before.passes[i as int] == ps[i as int]);
                assert(before.passes.skip(i + 1) =~= rest);
            }
            let strips: bool = self.passes[i].color_is_removable(alt) && (
            self.passes[i].list.color_clear_quad_ranges.len() == 0 || !self.color_observed_later(
                i,
                &loaded,
            ));
            proof {
                assert(self@.color_observed_later(ps[i as int], rest, loaded@)
                    == start.color_observed_later(ps[i as int], rest, loaded@)) by {
                    assert forall|t: u64|
                        self@.texture_observed(t, rest, loaded@) == start.texture_observed(
                            t,
                            rest,
                            loaded@,
                        ) by {}
                }
            }
            if strips {
                self.passes[i].remove_color(alt);
                proof {
                    assert(self@.passes =~= before.passes.update(
                        i as int,
                        ps[i as int].color_removed(alt@),
                    ));
                    assert(self@.passes =~= ps.take(i as int) + (seq![
                        ps[i as int].color_removed(alt@),
                    ] + rest));
                }
            } else {
                self.passes[i].record_loads(&mut loaded);
                proof {
                    assert(self@.passes =~= ps.take(i as int) + (seq![ps[i as int]] + rest));
                }
            }
        }
        assert(ps.skip(0) =~= ps);
        assert(self@.passes =~= start.colorless_passes(ps, alt@).0);
    }
}

} // verus!
