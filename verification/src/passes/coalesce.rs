//! Rule E: a pass that only clears folds into the next pass on its targets.

use super::attachment::PassColorAttachment;
use super::finalize::{
    blit_list_writes, pass_attaches_color, pass_reads_texture, pass_resolves_into,
};
use super::model::{PassStateView, PassView};
use super::{ColorLoad, DepthLoad, Pass, PassState, StencilLoad};
use rustc_hash::FxHashMap;
use vstd::prelude::*;

verus! {

impl PassView {
    /// Whether the pass does nothing but clear, and clears colour.
    pub open spec fn only_clears_color(self) -> bool {
        !self.has_effect_beyond_clears() && (self.color.load is Clear || exists|k: int|
            0 <= k < 3 && (#[trigger] self.extra[k]).is_bound_spec() && self.extra[k].load is Clear)
    }

    /// Whether the pass does nothing but clear, and clears depth.
    pub open spec fn only_clears_depth(self) -> bool {
        !self.has_effect_beyond_clears() && self.depth_load is Clear
    }

    /// Whether the pass does nothing but clear, and clears stencil.
    pub open spec fn only_clears_stencil(self) -> bool {
        !self.has_effect_beyond_clears() && self.depth_texture != 0 && self.stencil_load is Clear
    }

    pub open spec fn only_clears(self) -> bool {
        self.only_clears_color() || self.only_clears_depth() || self.only_clears_stencil()
    }

    /// Whether render targets 1 to 3 are those of `other`, slot for slot.
    pub open spec fn same_extras(self, other: PassView) -> bool {
        forall|k: int|
            0 <= k < 3 ==> (#[trigger] self.extra[k]).texture == other.extra[k].texture
                && self.extra[k].subresource == other.extra[k].subresource
    }

    /// Whether this pass sees, or writes over, the texture in colour slot `slot` of `p`
    /// other than by attaching it.
    pub open spec fn disturbs_slot(self, p: PassView, slot: int, twin_to_base: Map<u64, u64>) -> bool {
        let texture = p.color_at(slot).texture;
        self.reads_texture(texture, twin_to_base) || self.blits_into(texture) || self.resolves_into(
            texture,
            twin_to_base,
        )
    }

    /// Whether a target 1 to 3 of `p` is attached anywhere in this pass.
    pub open spec fn attaches_extra_of(self, p: PassView) -> bool {
        exists|k: int, slot: int|
            0 <= k < 3 && 0 <= slot < 4 && (#[trigger] p.extra[k]).texture != 0 && (
            #[trigger] self.color_at(slot)).texture == p.extra[k].texture
    }

    /// Whether the clears of `p` cannot move past this pass, nor into it: it sees or
    /// overwrites what they clear, or clears it itself.
    pub open spec fn blocks_clears_of(self, p: PassView, twin_to_base: Map<u64, u64>) -> bool {
        let depthish = p.only_clears_depth() || p.only_clears_stencil();
        ||| p.only_clears_color() && exists|slot: int|
            0 <= slot < 4 && #[trigger] self.disturbs_slot(p, slot, twin_to_base)
        ||| depthish && (self.blits_into(p.depth_texture) || self.depth_resolve_texture
            == p.depth_texture || self.reads_texture(p.depth_texture, twin_to_base))
        ||| p.only_clears_color() && !self.same_extras(p) && self.attaches_extra_of(p)
        ||| p.only_clears_color() && self.same_extras(p) && exists|k: int|
            0 <= k < 3 && (#[trigger] self.extra[k]).is_bound_spec() && !(self.extra[k].load is Load)
        ||| p.only_clears_color() && self.color.texture == p.color.texture && self.color.subresource
            == p.color.subresource && self.color.load is Clear
        ||| p.only_clears_depth() && self.depth_texture == p.depth_texture
            && self.depth_load is Clear
        ||| p.only_clears_stencil() && self.depth_texture == p.depth_texture
            && self.stencil_load is Clear
    }

    /// Whether this pass loads everything that `p` clears, through the same views, so that
    /// the clears can become its load actions.
    pub open spec fn takes_clears_of(self, p: PassView) -> bool {
        &&& p.only_clears_color() ==> self.same_extras(p) && self.color.texture == p.color.texture
            && self.color.srgb_texture == p.color.srgb_texture && self.color.subresource
            == p.color.subresource && self.color.load is Load
        &&& p.only_clears_depth() ==> self.depth_texture == p.depth_texture
            && self.depth_load is Load
        &&& p.only_clears_stencil() ==> self.depth_texture == p.depth_texture
            && self.stencil_load is Load
    }

    /// Whether this pass attaches something that `p` clears.
    pub open spec fn consumes_clears_of(self, p: PassView) -> bool {
        ||| p.only_clears_color() && exists|slot: int|
            0 <= slot < 4 && self.attaches_color(
                (#[trigger] p.color_at(slot)).texture,
                p.color_at(slot).subresource,
            )
        ||| p.only_clears_depth() && self.depth_texture == p.depth_texture && self.depth_load is Load
        ||| p.only_clears_stencil() && self.depth_texture == p.depth_texture
            && self.stencil_load is Load
    }

    /// This pass with the clears of `p` as its load actions.
    pub open spec fn with_clears_of(self, p: PassView) -> PassView {
        PassView {
            color: if p.only_clears_color() {
                PassColorAttachment { load: p.color.load, ..self.color }
            } else {
                self.color
            },
            extra: if p.only_clears_color() {
                Seq::new(
                    3,
                    |k: int|
                        if self.extra[k].is_bound_spec() {
                            PassColorAttachment { load: p.extra[k].load, ..self.extra[k] }
                        } else {
                            self.extra[k]
                        },
                )
            } else {
                self.extra
            },
            depth_load: if p.only_clears_depth() {
                p.depth_load
            } else {
                self.depth_load
            },
            stencil_load: if p.only_clears_stencil() {
                p.stencil_load
            } else {
                self.stencil_load
            },
            ..self
        }
    }
}

/// The first pass from `j` on that takes the clears of `p`, if they can move that far.
pub open spec fn merge_target(
    ps: Seq<PassView>,
    p: PassView,
    j: int,
    twin_to_base: Map<u64, u64>,
) -> Option<int>
    decreases ps.len() - j,
{
    if j < 0 || j >= ps.len() || ps[j].blocks_clears_of(p, twin_to_base) {
        None
    } else if ps[j].takes_clears_of(p) {
        Some(j)
    } else if ps[j].consumes_clears_of(p) {
        None
    } else {
        merge_target(ps, p, j + 1, twin_to_base)
    }
}

/// The passes with Rule E applied from pass `i` on.
pub open spec fn coalesced(ps: Seq<PassView>, i: int, twin_to_base: Map<u64, u64>) -> Seq<PassView>
    decreases ps.len() - i,
{
    if i < 0 || i >= ps.len() {
        ps
    } else if ps[i].only_clears() {
        match merge_target(ps, ps[i], i + 1, twin_to_base) {
            Some(t) => if i < t < ps.len() {
                coalesced(
                    ps.update(t, ps[t].with_clears_of(ps[i])).remove(i),
                    i,
                    twin_to_base,
                )
            } else {
                ps
            },
            None => coalesced(ps, i + 1, twin_to_base),
        }
    } else {
        coalesced(ps, i + 1, twin_to_base)
    }
}

/// A clear that moves passes nobody: the pass that takes it loads what it clears, and no
/// pass in between reads, writes or attaches it.
pub proof fn moved_clears_pass_nobody(
    ps: Seq<PassView>,
    p: PassView,
    j: int,
    twin_to_base: Map<u64, u64>,
)
    requires
        0 <= j,
    ensures
        merge_target(ps, p, j, twin_to_base) matches Some(t) ==> {
            &&& j <= t < ps.len()
            &&& ps[t].takes_clears_of(p)
            &&& !ps[t].blocks_clears_of(p, twin_to_base)
            &&& forall|m: int|
                j <= m < t ==> !(#[trigger] ps[m]).blocks_clears_of(p, twin_to_base)
                    && !ps[m].consumes_clears_of(p)
        },
    decreases ps.len() - j,
{
    if j < ps.len() {
        moved_clears_pass_nobody(ps, p, j + 1, twin_to_base);
    }
}

/// What a pass that only clears would move.
struct ClearMerge {
    needs_color: bool,
    needs_depth: bool,
    needs_stencil: bool,
}

impl ClearMerge {
    spec fn is_of(&self, p: PassView) -> bool {
        &&& self.needs_color == p.only_clears_color()
        &&& self.needs_depth == p.only_clears_depth()
        &&& self.needs_stencil == p.only_clears_stencil()
    }
}

fn is_color_clear(load: ColorLoad) -> (r: bool)
    ensures
        r == (load is Clear),
{
    match load {
        ColorLoad::Clear { r: _, g: _, b: _, a: _ } => true,
        _ => false,
    }
}

fn is_depth_clear(load: DepthLoad) -> (r: bool)
    ensures
        r == (load is Clear),
{
    match load {
        DepthLoad::Clear { value: _ } => true,
        _ => false,
    }
}

fn is_stencil_clear(load: StencilLoad) -> (r: bool)
    ensures
        r == (load is Clear),
{
    match load {
        StencilLoad::Clear { value: _ } => true,
        _ => false,
    }
}

impl Pass {
    fn clear_merge(&self) -> (r: ClearMerge)
        ensures
            r.is_of(self@),
    {
        proof {
            self.lemma_shape();
        }
        assert(self@.extra[0] == self.extra_color[0] && self@.extra[1] == self.extra_color[1]
            && self@.extra[2] == self.extra_color[2]);
        let effect: bool = self.leading_blits.len() != 0 || self.has_draw();
        let colors: bool = is_color_clear(self.color.load) || (self.extra_color[0].is_bound()
            && is_color_clear(self.extra_color[0].load)) || (self.extra_color[1].is_bound()
            && is_color_clear(self.extra_color[1].load)) || (self.extra_color[2].is_bound()
            && is_color_clear(self.extra_color[2].load));
        ClearMerge {
            needs_color: !effect && colors,
            needs_depth: !effect && is_depth_clear(self.depth_load),
            needs_stencil: !effect && self.depth_texture != 0 && is_stencil_clear(
                self.stencil_load,
            ),
        }
    }

    fn same_extras(&self, other: &Pass) -> (r: bool)
        ensures
            r == self@.same_extras(other@),
    {
        let mut k: usize = 0;
        while k < 3
            invariant
                k <= 3,
                forall|m: int|
                    0 <= m < k ==> (#[trigger] self@.extra[m]).texture == other@.extra[m].texture
                        && self@.extra[m].subresource == other@.extra[m].subresource,
            decreases 3 - k,
        {
            if self.extra_color[k].texture != other.extra_color[k].texture
                || self.extra_color[k].subresource != other.extra_color[k].subresource {
                assert(self@.extra[k as int].texture != other@.extra[k as int].texture
                    || self@.extra[k as int].subresource != other@.extra[k as int].subresource);
                return false;
            }
            k += 1;
        }
        true
    }

    fn disturbs_colors_of(&self, p: &Pass, twin_to_base: &FxHashMap<u64, u64>) -> (r: bool)
        ensures
            r == (exists|slot: int|
                0 <= slot < 4 && #[trigger] self@.disturbs_slot(p@, slot, twin_to_base@)),
    {
        let mut slot: usize = 0;
        while slot < 4
            invariant
                slot <= 4,
                forall|s: int|
                    0 <= s < slot ==> !(#[trigger] self@.disturbs_slot(p@, s, twin_to_base@)),
            decreases 4 - slot,
        {
            let texture: u64 = p.color_at(slot).texture;
            if pass_reads_texture(self, texture, twin_to_base) || blit_list_writes(
                &self.leading_blits,
                texture,
            ) || pass_resolves_into(self, texture, twin_to_base) {
                assert(self@.disturbs_slot(p@, slot as int, twin_to_base@));
                return true;
            }
            slot += 1;
        }
        false
    }

    fn attaches_extra_of(&self, p: &Pass) -> (r: bool)
        ensures
            r == self@.attaches_extra_of(p@),
    {
        let mut k: usize = 0;
        while k < 3
            invariant
                k <= 3,
                forall|m: int, s: int|
                    0 <= m < k && 0 <= s < 4 && (#[trigger] p@.extra[m]).texture != 0 ==> (
                    #[trigger] self@.color_at(s)).texture != p@.extra[m].texture,
            decreases 3 - k,
        {
            let texture: u64 = p.extra_color[k].texture;
            assert(p@.extra[k as int].texture == texture);
            if texture != 0 {
                proof {
                    self.lemma_shape();
                }
                if self.color.texture == texture {
                    assert(self@.color_at(0).texture == p@.extra[k as int].texture);
                    return true;
                }
                if self.extra_color[0].texture == texture {
                    assert(self@.color_at(1).texture == p@.extra[k as int].texture);
                    return true;
                }
                if self.extra_color[1].texture == texture {
                    assert(self@.color_at(2).texture == p@.extra[k as int].texture);
                    return true;
                }
                if self.extra_color[2].texture == texture {
                    assert(self@.color_at(3).texture == p@.extra[k as int].texture);
                    return true;
                }
                assert(forall|s: int|
                    0 <= s < 4 ==> (#[trigger] self@.color_at(s)).texture != texture);
            }
            k += 1;
        }
        false
    }

    fn has_unloaded_extra(&self) -> (r: bool)
        ensures
            r == (exists|k: int|
                0 <= k < 3 && (#[trigger] self@.extra[k]).is_bound_spec()
                    && !(self@.extra[k].load is Load)),
    {
        assert(self@.extra[0] == self.extra_color[0] && self@.extra[1] == self.extra_color[1]
            && self@.extra[2] == self.extra_color[2]);
        (self.extra_color[0].is_bound() && self.extra_color[0].load != ColorLoad::Load) || (
        self.extra_color[1].is_bound() && self.extra_color[1].load != ColorLoad::Load) || (
        self.extra_color[2].is_bound() && self.extra_color[2].load != ColorLoad::Load)
    }

    fn blocks_clears_of(&self, p: &Pass, want: &ClearMerge, twin_to_base: &FxHashMap<u64, u64>) -> (r:
        bool)
        requires
            want.is_of(p@),
        ensures
            r == self@.blocks_clears_of(p@, twin_to_base@),
    {
        if want.needs_color {
            if self.disturbs_colors_of(p, twin_to_base) {
                return true;
            }
            let same: bool = self.same_extras(p);
            if !same && self.attaches_extra_of(p) {
                return true;
            }
            if same && self.has_unloaded_extra() {
                return true;
            }
            if self.color.texture == p.color.texture && self.color.subresource
                == p.color.subresource && is_color_clear(self.color.load) {
                return true;
            }
        }
        if want.needs_depth || want.needs_stencil {
            if blit_list_writes(&self.leading_blits, p.depth_texture) || self.depth_resolve_texture
                == p.depth_texture || pass_reads_texture(self, p.depth_texture, twin_to_base) {
                return true;
            }
        }
        if want.needs_depth && self.depth_texture == p.depth_texture && is_depth_clear(
            self.depth_load,
        ) {
            return true;
        }
        want.needs_stencil && self.depth_texture == p.depth_texture && is_stencil_clear(
            self.stencil_load,
        )
    }

    fn takes_clears_of(&self, p: &Pass, want: &ClearMerge) -> (r: bool)
        requires
            want.is_of(p@),
        ensures
            r == self@.takes_clears_of(p@),
    {
        (!want.needs_color || (self.same_extras(p) && self.color.texture == p.color.texture
            && self.color.srgb_texture == p.color.srgb_texture && self.color.subresource
            == p.color.subresource && self.color.load == ColorLoad::Load)) && (!want.needs_depth
            || (self.depth_texture == p.depth_texture && self.depth_load == DepthLoad::Load)) && (
        !want.needs_stencil || (self.depth_texture == p.depth_texture && self.stencil_load
            == StencilLoad::Load))
    }

    fn consumes_clears_of(&self, p: &Pass, want: &ClearMerge) -> (r: bool)
        requires
            want.is_of(p@),
        ensures
            r == self@.consumes_clears_of(p@),
    {
        if want.needs_color {
            let mut slot: usize = 0;
            while slot < 4
                invariant
                    slot <= 4,
                    want.needs_color,
                    want.is_of(p@),
                    forall|s: int|
                        0 <= s < slot ==> !self@.attaches_color(
                            (#[trigger] p@.color_at(s)).texture,
                            p@.color_at(s).subresource,
                        ),
                decreases 4 - slot,
            {
                let a: PassColorAttachment = p.color_at(slot);
                if pass_attaches_color(self, a.texture, a.subresource) {
                    assert(p@.color_at(slot as int) == a);
                    return true;
                }
                slot += 1;
            }
        }
        (want.needs_depth && self.depth_texture == p.depth_texture && self.depth_load
            == DepthLoad::Load) || (want.needs_stencil && self.depth_texture == p.depth_texture
            && self.stencil_load == StencilLoad::Load)
    }

    fn take_extra_clear(&mut self, k: usize, load: ColorLoad)
        requires
            k < 3,
        ensures
            final(self)@ == (PassView {
                extra: old(self)@.extra.update(
                    k as int,
                    (if old(self)@.extra[k as int].is_bound_spec() {
                        PassColorAttachment { load, ..old(self)@.extra[k as int] }
                    } else {
                        old(self)@.extra[k as int]
                    }),
                ),
                ..old(self)@
            }),
    {
        let mut a: PassColorAttachment = self.extra_color[k];
        if a.is_bound() {
            a.load = load;
        }
        self.extra_color[k] = a;
    }

    fn take_clears(
        &mut self,
        want: &ClearMerge,
        color: ColorLoad,
        extra: [ColorLoad; 3],
        depth: DepthLoad,
        stencil: StencilLoad,
        Ghost(p): Ghost<PassView>,
    )
        requires
            want.is_of(p),
            color == p.color.load,
            p.extra.len() == 3,
            forall|k: int| 0 <= k < 3 ==> #[trigger] extra@[k] == p.extra[k].load,
            depth == p.depth_load,
            stencil == p.stencil_load,
        ensures
            final(self)@ == old(self)@.with_clears_of(p),
    {
        if want.needs_color {
            self.color.load = color;
            self.take_extra_clear(0, extra[0]);
            self.take_extra_clear(1, extra[1]);
            self.take_extra_clear(2, extra[2]);
            assert(extra@[0] == p.extra[0].load && extra@[1] == p.extra[1].load && extra@[2]
                == p.extra[2].load);
        }
        if want.needs_depth {
            self.depth_load = depth;
        }
        if want.needs_stencil {
            self.stencil_load = stencil;
        }
        assert(self@.extra =~= old(self)@.with_clears_of(p).extra);
        assert(self@ =~= old(self)@.with_clears_of(p));
    }
}

impl PassState {
    /// The first later pass that can take the clears of pass `start`, if they can move that
    /// far.
    fn find_clear_merge_target(&self, start: usize, want: &ClearMerge) -> (r: Option<usize>)
        requires
            start < self@.passes.len(),
            want.is_of(self@.passes[start as int]),
        ensures
            (match r {
                Some(t) => Some(t as int),
                None => None,
            }) == merge_target(
                self@.passes,
                self@.passes[start as int],
                start + 1,
                self@.twin_to_base,
            ),
    {
        let ghost ps = self@.passes;
        let ghost p = self@.passes[start as int];
        let ghost twins = self@.twin_to_base;
        assert(start < self.passes.len());
        let mut j: usize = start + 1;
        while j < self.passes.len()
            invariant
                start < self.passes@.len(),
                start < j <= self.passes@.len(),
                ps == self@.passes,
                p == ps[start as int],
                twins == self@.twin_to_base,
                want.is_of(p),
                merge_target(ps, p, start + 1, twins) == merge_target(ps, p, j as int, twins),
            decreases self.passes@.len() - j,
        {
            let cand: &Pass = &self.passes[j];
            let from: &Pass = &self.passes[start];
            assert(cand@ == ps[j as int] && from@ == p);
            if cand.blocks_clears_of(from, want, &self.twin_to_base) {
                return None;
            }
            if cand.takes_clears_of(from, want) {
                return Some(j);
            }
            if cand.consumes_clears_of(from, want) {
                return None;
            }
            j += 1;
        }
        None
    }

    /// Rule E: folds every pass that only clears into the next pass that loads what it
    /// clears, where no pass in between can tell.
    pub fn coalesce_clear_only_passes(&mut self)
        ensures
            final(self)@ == (PassStateView {
                passes: coalesced(old(self)@.passes, 0, old(self)@.twin_to_base),
                ..old(self)@
            }),
            final(self).realloc_bytes() == old(self).realloc_bytes(),
    {
        let ghost twins = self@.twin_to_base;
        let mut i: usize = 0;
        while i < self.passes.len()
            invariant
                i <= self.passes@.len(),
                twins == old(self)@.twin_to_base,
                self@ == (PassStateView { passes: self@.passes, ..old(self)@ }),
                self.realloc_bytes() == old(self).realloc_bytes(),
                coalesced(old(self)@.passes, 0, twins) == coalesced(self@.passes, i as int, twins),
            decreases self.passes@.len() - i,
        {
            let ghost before = self@;
            let ghost p = self@.passes[i as int];
            assert(p == self.passes@[i as int]@);
            let want: ClearMerge = self.passes[i].clear_merge();
            if !want.needs_color && !want.needs_depth && !want.needs_stencil {
                i += 1;
                continue;
            }
            let target: Option<usize> = self.find_clear_merge_target(i, &want);
            proof {
                moved_clears_pass_nobody(before.passes, p, i + 1, twins);
                self.passes@[i as int].lemma_shape();
            }
            match target {
                Some(t) => {
                    let color: ColorLoad = self.passes[i].color.load;
                    let extra: [ColorLoad; 3] = [
                        self.passes[i].extra_color[0].load,
                        self.passes[i].extra_color[1].load,
                        self.passes[i].extra_color[2].load,
                    ];
                    let depth: DepthLoad = self.passes[i].depth_load;
                    let stencil: StencilLoad = self.passes[i].stencil_load;
                    assert(t < self.passes.len());
                    self.passes[t].take_clears(&want, color, extra, depth, stencil, Ghost(p));
                    let ghost mid = before.passes.update(
                        t as int,
                        before.passes[t as int].with_clears_of(p),
                    );
                    assert(self@.passes =~= mid);
                    let _ = self.passes.remove(i);
                    assert(self@.passes =~= mid.remove(i as int));
                },
                None => {
                    i += 1;
                },
            }
        }
    }
}

} // verus!
