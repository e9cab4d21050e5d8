//! What has to be loaded and stored, said of the passes before and after alone.

use super::attachment::PassColorAttachment;
use super::coalesce::{merge_target, moved_clears_pass_nobody};
use super::merge::{join_crosses_only_independent_passes, join_target};
use super::model::{PassStateView, PassView};
use super::store::{is_last_use, is_next_use, map_uses, next_use_clears, uses, walked_before};
use super::{ColorClearOutcome, ColorLoad, DepthLoad, StencilLoad, StoreAction};
use crate::metal::CommandType;
use vstd::prelude::*;

verus! {

/// Whether slot `t` of pass `j` attaches the same image as slot `slot` of pass `i`.
pub open spec fn same_image(ps: Seq<PassView>, i: int, slot: int, j: int, t: int) -> bool {
    &&& 0 <= j < ps.len()
    &&& 0 <= t < 4
    &&& ps[j].color_at(t).texture != 0
    &&& ps[j].color_at(t).texture == ps[i].color_at(slot).texture
    &&& ps[j].color_at(t).subresource == ps[i].color_at(slot).subresource
}

/// Whether every pass has render targets 1 to 3, bound or not.
pub open spec fn have_targets(ps: Seq<PassView>) -> bool {
    forall|j: int| 0 <= j < ps.len() ==> (#[trigger] ps[j]).extra.len() == 3
}

/// Whether no pass attaches the image of slot `slot` of pass `i` in another slot of pass `i`,
/// nor in a pass behind it before pass `end`.
pub open spec fn unused_until(ps: Seq<PassView>, i: int, slot: int, end: int) -> bool {
    forall|j: int, t: int| #[trigger]
        same_image(ps, i, slot, j, t) && i <= j < end ==> j == i && t == slot
}

proof fn stores_by_rule(s: PassStateView, frame_continues: bool, i: int, slot: int)
    requires
        have_targets(s.passes),
        0 <= i < s.passes.len(),
        0 <= slot < 4,
        s.passes[i].color_at(slot).texture != 0,
    ensures
        ({
            let a = s.passes[i].color_at(slot);
            let out = s.stores_settled(frame_continues).passes[i].color_at(slot);
            let sampled = s.ever_sampled.contains(a.texture);
            &&& out.store == (if !sampled && (next_use_clears(s.passes, i, slot) || (
            !frame_continues && a.texture != s.backbuffer && is_last_use(s.passes, i, slot))) {
                StoreAction::DontCare
            } else {
                a.store
            })
        }),
{
    let ps = s.passes;
    let b = if frame_continues {
        ps
    } else {
        super::store::depth_stores_settled(ps, s.ever_sampled)
    };
    let c = map_uses(b, super::store::next_clear_rule(b, s.ever_sampled));
    let a = ps[i].color_at(slot);
    let key = (a.texture, a.subresource);
    assert forall|j: int, k: int| 0 <= j < ps.len() && 0 <= k < 4 implies #[trigger] b[j].color_at(k)
        == ps[j].color_at(k) by {}
    assert forall|j: int, k: int| 0 <= j < ps.len() && 0 <= k < 4 implies ({
        let x = #[trigger] c[j].color_at(k);
        let y = ps[j].color_at(k);
        x.texture == y.texture && x.subresource == y.subresource
    }) by {}
    assert forall|j: int, k: int| uses(b, j, k, key) == #[trigger] uses(ps, j, k, key) by {
        if 0 <= j < ps.len() && 0 <= k < 4 {
            assert(b[j].color_at(k) == ps[j].color_at(k));
        }
    }
    assert forall|j: int, k: int| uses(c, j, k, key) == #[trigger] uses(ps, j, k, key) by {
        if 0 <= j < ps.len() && 0 <= k < 4 {
            let x = c[j].color_at(k);
        }
    }
    assert(next_use_clears(b, i, slot) == next_use_clears(ps, i, slot)) by {
        if next_use_clears(b, i, slot) {
            let (j, k) = choose|j: int, k: int| #[trigger]
                is_next_use(b, key, i, slot, j, k) && b[j].color_at(k).load is Clear;
            assert(uses(ps, j, k, key));
            assert forall|j2: int, s2: int|
                #[trigger] uses(ps, j2, s2, key) && walked_before(j2, s2, i, slot) implies (j2 == j
                && s2 == k) || walked_before(j2, s2, j, k) by {
                assert(uses(b, j2, s2, key));
            }
            assert(is_next_use(ps, key, i, slot, j, k));
        }
        if next_use_clears(ps, i, slot) {
            let (j, k) = choose|j: int, k: int| #[trigger]
                is_next_use(ps, key, i, slot, j, k) && ps[j].color_at(k).load is Clear;
            assert(uses(b, j, k, key));
            assert forall|j2: int, s2: int|
                #[trigger] uses(b, j2, s2, key) && walked_before(j2, s2, i, slot) implies (j2 == j
                && s2 == k) || walked_before(j2, s2, j, k) by {
                assert(uses(ps, j2, s2, key));
            }
            assert(is_next_use(b, key, i, slot, j, k));
        }
    }
    let ac = c[i].color_at(slot);
    assert(ac.texture == a.texture && ac.subresource == a.subresource);
    assert(is_last_use(c, i, slot) == is_last_use(ps, i, slot)) by {
        if is_last_use(ps, i, slot) {
            assert forall|j: int, k: int| #[trigger] uses(c, j, k, key) implies !walked_before(
                j,
                k,
                i,
                slot,
            ) by {
                assert(uses(ps, j, k, key));
            }
        }
        if is_last_use(c, i, slot) {
            assert forall|j: int, k: int| #[trigger] uses(ps, j, k, key) implies !walked_before(
                j,
                k,
                i,
                slot,
            ) by {
                assert(uses(c, j, k, key));
            }
        }
    }
}

/// An image that a later pass attaches is given up exactly when the next pass to do so
/// clears it and nothing ever samples it. In particular what that pass loads is stored.
pub proof fn images_are_kept_for_the_next_pass(
    s: PassStateView,
    frame_continues: bool,
    i: int,
    slot: int,
    j: int,
    t: int,
)
    requires
        have_targets(s.passes),
        0 <= i < j,
        0 <= slot < 4,
        s.passes[i].color_at(slot).texture != 0,
        same_image(s.passes, i, slot, j, t),
        unused_until(s.passes, i, slot, j),
        forall|u: int| #[trigger] same_image(s.passes, i, slot, j, u) ==> u == t,
    ensures
        ({
            let before = s.passes[i].color_at(slot);
            let after = s.stores_settled(frame_continues).passes[i].color_at(slot);
            let load = s.stores_settled(frame_continues).passes[j].color_at(t).load;
            &&& load == s.passes[j].color_at(t).load
            &&& load is Load ==> after.store == before.store
            &&& load is DontCare ==> after.store == before.store
            &&& load is Clear && s.ever_sampled.contains(before.texture) ==> after.store
                == before.store
            &&& load is Clear && !s.ever_sampled.contains(before.texture) ==> after.store
                == StoreAction::DontCare
        }),
{
    stores_by_rule(s, frame_continues, i, slot);
    let ps = s.passes;
    let a = ps[i].color_at(slot);
    let key = (a.texture, a.subresource);
    assert(uses(ps, j, t, key));
    assert forall|j2: int, s2: int|
        #[trigger] uses(ps, j2, s2, key) && walked_before(j2, s2, i, slot) implies (j2 == j && s2
        == t) || walked_before(j2, s2, j, t) by {
        assert(same_image(ps, i, slot, j2, s2));
    }
    assert(is_next_use(ps, key, i, slot, j, t));
    if next_use_clears(ps, i, slot) {
        let (j2, k2) = choose|j2: int, k2: int| #[trigger]
            is_next_use(ps, key, i, slot, j2, k2) && ps[j2].color_at(k2).load is Clear;
        assert(uses(ps, j2, k2, key));
    }
    assert(!is_last_use(ps, i, slot));
}

/// An image that no later pass attaches is given up exactly at the end of a frame, unless it
/// is presented or something samples it.
pub proof fn images_are_given_up_after_their_last_pass(
    s: PassStateView,
    frame_continues: bool,
    i: int,
    slot: int,
)
    requires
        have_targets(s.passes),
        0 <= i < s.passes.len(),
        0 <= slot < 4,
        s.passes[i].color_at(slot).texture != 0,
        unused_until(s.passes, i, slot, s.passes.len() as int),
    ensures
        ({
            let before = s.passes[i].color_at(slot);
            let after = s.stores_settled(frame_continues).passes[i].color_at(slot);
            after.store == (if frame_continues || before.texture == s.backbuffer
                || s.ever_sampled.contains(before.texture) {
                before.store
            } else {
                StoreAction::DontCare
            })
        }),
{
    stores_by_rule(s, frame_continues, i, slot);
    let ps = s.passes;
    let a = ps[i].color_at(slot);
    let key = (a.texture, a.subresource);
    assert forall|j: int, k: int| #[trigger] uses(ps, j, k, key) implies !walked_before(
        j,
        k,
        i,
        slot,
    ) by {
        assert(same_image(ps, i, slot, j, k));
    }
    if next_use_clears(ps, i, slot) {
        let (j2, k2) = choose|j2: int, k2: int| #[trigger]
            is_next_use(ps, key, i, slot, j2, k2) && ps[j2].color_at(k2).load is Clear;
        assert(uses(ps, j2, k2, key));
    }
}

/// No pass loads an image that was given up: whenever a store is given up and a later pass
/// does not clear the image, some pass up to that one, or another slot of the same, does.
pub proof fn no_pass_loads_what_was_given_up(
    s: PassStateView,
    frame_continues: bool,
    i: int,
    slot: int,
    j: int,
    t: int,
)
    requires
        have_targets(s.passes),
        0 <= i < j,
        0 <= slot < 4,
        s.passes[i].color_at(slot).texture != 0,
        same_image(s.passes, i, slot, j, t),
        s.stores_settled(frame_continues).passes[i].color_at(slot).store != s.passes[i].color_at(
            slot,
        ).store,
    ensures
        exists|m: int, u: int|
            i <= m <= j && (m, u) != (i, slot) && #[trigger] same_image(s.passes, i, slot, m, u)
                && s.passes[m].color_at(u).load is Clear,
        !s.ever_sampled.contains(s.passes[i].color_at(slot).texture),
{
    stores_by_rule(s, frame_continues, i, slot);
    let ps = s.passes;
    let a = ps[i].color_at(slot);
    let key = (a.texture, a.subresource);
    assert(uses(ps, j, t, key));
    assert(!is_last_use(ps, i, slot));
    let (m, u) = choose|m: int, u: int| #[trigger]
        is_next_use(ps, key, i, slot, m, u) && ps[m].color_at(u).load is Clear;
    assert(uses(ps, m, u, key));
    assert(same_image(ps, i, slot, m, u));
}

/// Settling the stores changes nothing but store actions and resolves: what a pass attaches,
/// loads, records and runs before it stays.
pub proof fn settling_stores_changes_nothing_else(
    s: PassStateView,
    frame_continues: bool,
    i: int,
    slot: int,
)
    requires
        have_targets(s.passes),
        0 <= i < s.passes.len(),
        0 <= slot < 4,
    ensures
        ({
            let p = s.passes[i];
            let q = s.stores_settled(frame_continues).passes[i];
            &&& s.stores_settled(frame_continues).passes.len() == s.passes.len()
            &&& q == (PassView { color: q.color, extra: q.extra, depth_store: q.depth_store, ..p })
            &&& q.color_at(slot) == (PassColorAttachment {
                store: q.color_at(slot).store,
                resolve_texture: q.color_at(slot).resolve_texture,
                ..p.color_at(slot)
            })
            &&& s.stores_settled(frame_continues) == (PassStateView {
                passes: s.stores_settled(frame_continues).passes,
                ..s
            })
        }),
{
}

/// Depth is given up exactly after its last pass of a frame that ends, unless it can be
/// sampled or was.
pub proof fn depth_is_given_up_after_its_last_pass(s: PassStateView, frame_continues: bool, i: int)
    requires
        0 <= i < s.passes.len(),
    ensures
        ({
            let p = s.passes[i];
            let last = p.depth_texture != 0 && forall|j: int|
                i < j < s.passes.len() ==> (#[trigger] s.passes[j]).depth_texture
                    != p.depth_texture;
            s.stores_settled(frame_continues).passes[i].depth_store == (if last && !frame_continues
                && !p.depth_is_sampleable && !s.ever_sampled.contains(p.depth_texture) {
                StoreAction::DontCare
            } else {
                p.depth_store
            })
        }),
{
}

/// A new pass attaches what is bound, stores all of it, and runs the blits that wait.
pub proof fn a_new_pass_attaches_what_is_bound(s: PassStateView, i: int)
    requires
        s.shaped(),
        !s.is_open(),
        0 <= i < 3,
    ensures
        ({
            let p = s.opened().passes.last();
            &&& s.opened().passes.len() == s.passes.len() + 1
            &&& s.opened().is_open()
            &&& p.color.texture == s.color_texture
            &&& p.color.subresource == s.color_subresource
            &&& p.color.size == s.color_size
            &&& p.color.msaa_texture == s.color_msaa
            &&& p.color.store == StoreAction::Store
            &&& p.extra[i].texture == (if s.extra_present[i] {
                s.extra[i].texture
            } else {
                0
            })
            &&& s.extra_present[i] ==> p.extra[i].subresource == s.extra[i].subresource
                && p.extra[i].msaa_texture == s.extra[i].msaa_texture && p.extra[i].store
                == StoreAction::Store
            &&& p.depth_texture == (if s.depth_sample_count == s.color_sample_count {
                s.depth_texture
            } else {
                0
            })
            &&& p.depth_store == StoreAction::Store
            &&& p.leading_blits == s.pending_leading_blits
            &&& p.viewport == s.effective_viewport()
            &&& s.opened().pending_leading_blits.len() == 0
            &&& !s.opened().has_pending_clear()
        }),
{
}

/// A new pass clears its colour images to the colour that waits. Without one it loads each
/// of them, but for an image that the pass covers and that nothing drew, blitted or sampled
/// before.
pub proof fn a_new_pass_loads_its_colours(s: PassStateView, slot: int)
    requires
        s.shaped(),
        !s.is_open(),
        0 <= slot < 4,
        s.opened().passes.last().color_at(slot).texture != 0,
    ensures
        ({
            let a = s.opened().passes.last().color_at(slot);
            let covered = s.effective_viewport() == (0u32, 0u32, s.color_size.0, s.color_size.1);
            let fresh = !s.seen_color.contains((a.texture, a.subresource))
                && !s.ever_sampled.contains(a.texture) && !s.blit_written.contains(a.texture);
            &&& s.pending_color_clear matches Some(c) ==> a.load == (ColorLoad::Clear {
                r: c.0,
                g: c.1,
                b: c.2,
                a: c.3,
            })
            &&& s.pending_color_clear is None && covered && fresh ==> a.load == ColorLoad::DontCare
            &&& s.pending_color_clear is None && !(covered && fresh) ==> a.load == ColorLoad::Load
        }),
{
}

/// The same of depth and stencil, each with its own clear; depth that can be sampled is
/// always loaded.
pub proof fn a_new_pass_loads_its_depth(s: PassStateView)
    requires
        !s.is_open(),
        s.opened().passes.last().depth_texture != 0,
    ensures
        ({
            let p = s.opened().passes.last();
            let vp = s.effective_viewport();
            let covered = vp.0 == 0 && vp.1 == 0 && vp.2 >= s.depth_size.0 && vp.3
                >= s.depth_size.1;
            let fresh = !s.attachments.depth_sampleable && !s.seen_depth.contains(p.depth_texture)
                && !s.ever_sampled.contains(p.depth_texture) && !s.blit_written.contains(
                p.depth_texture,
            );
            &&& s.pending_depth_clear matches Some(value) ==> p.depth_load == (DepthLoad::Clear {
                value,
            })
            &&& s.pending_stencil_clear matches Some(value) ==> p.stencil_load == (
            StencilLoad::Clear { value })
            &&& s.pending_depth_clear is None && covered && fresh ==> p.depth_load
                == DepthLoad::DontCare
            &&& s.pending_depth_clear is None && !(covered && fresh) ==> p.depth_load
                == DepthLoad::Load
            &&& s.pending_stencil_clear is None && covered && fresh ==> p.stencil_load
                == StencilLoad::DontCare
            &&& s.pending_stencil_clear is None && !(covered && fresh) ==> p.stencil_load
                == StencilLoad::Load
        }),
{
}

/// What a pass attaches counts as used from then on, in the frame and in the segment.
pub proof fn attached_images_count_as_used(s: PassStateView, slot: int)
    requires
        !s.is_open(),
        0 <= slot < 4,
    ensures
        ({
            let t = s.opened();
            let p = t.passes.last();
            let key = (p.color_at(slot).texture, p.color_at(slot).subresource);
            &&& key.0 != 0 ==> t.seen_color.contains(key) && t.segment_color.contains(key)
            &&& p.depth_texture != 0 ==> t.seen_depth.contains(p.depth_texture)
                && t.segment_depth.contains(p.depth_texture)
            &&& forall|k: (u64, u32)| #[trigger] s.seen_color.contains(k) ==> t.seen_color.contains(k)
            &&& forall|d: u64| #[trigger] s.seen_depth.contains(d) ==> t.seen_depth.contains(d)
        }),
{
    let p = s.opened().passes.last();
    let a = p.color_at(slot);
}

/// A colour clear is painted over draws of the open pass, without touching them, unless they
/// are counted; over content of this segment it is painted too, in a pass that loads it, as
/// long as the viewport has an extent. In every other case nothing that is drawn stands
/// behind it, and it becomes the load action of every colour image of the open pass or waits
/// for the next.
pub proof fn colour_clears_reach_every_image(
    s: PassStateView,
    rgba: (u32, u32, u32, u32),
    slot: int,
)
    requires
        s.shaped(),
        s.passes.len() > 0 ==> s.passes.last().extra.len() == 3,
        0 <= slot < 4,
    ensures
        ({
            let t = s.color_cleared(rgba).0;
            let folded = s.color_cleared(rgba).1 is Folded;
            let drawn = s.is_open() && s.passes.last().commands.len() > 1;
            let counted = s.is_open() && s.passes.last().has_counting_visibility;
            &&& drawn && !counted ==> !folded && t == s
            &&& folded && t.is_open() ==> !drawn && (t.passes.last().color_at(slot).texture != 0
                ==> t.passes.last().color_at(slot).load == (ColorLoad::Clear {
                r: rgba.0,
                g: rgba.1,
                b: rgba.2,
                a: rgba.3,
            }))
            &&& folded && !t.is_open() ==> t.pending_color_clear == Some(rgba)
            &&& !folded ==> t.is_open()
            &&& !folded && !(drawn && !counted) ==> t.passes.last().color_at(slot).texture == 0 || !(
            t.passes.last().color_at(slot).load is Clear)
            &&& s.passes.len() <= t.passes.len()
            &&& forall|k: int|
                0 <= k < s.passes.len() - 1 ==> #[trigger] t.passes[k] == s.passes[k]
            &&& s.passes.len() > 0 ==> t.passes[s.passes.len() - 1].commands
                == s.passes.last().commands
            &&& s.color_cleared(rgba).1 matches ColorClearOutcome::EmitQuad {
                rgba: c,
                viewport,
                color_format,
            } ==> c == rgba && viewport == s.effective_viewport()
        }),
{
}

/// A depth clear that is folded is the load action of the open pass, which has drawn nothing
/// yet, or waits for the next; where no depth takes part it does nothing.
pub proof fn depth_clears_reach_the_image(s: PassStateView, value: u32)
    ensures
        ({
            let t = s.depth_cleared(value).0;
            let drawn = s.is_open() && s.passes.last().commands.len() > 1;
            &&& s.depth_texture == 0 || s.depth_sample_count != s.color_sample_count ==> t == s
                && s.depth_cleared(value).1 is NoOp
            &&& s.depth_cleared(value).1 is NoOp ==> t == s
            &&& s.depth_cleared(value).1 is Folded && t.is_open() ==> !drawn
                && t.passes.last().depth_load == (DepthLoad::Clear { value })
            &&& s.depth_cleared(value).1 is Folded && !t.is_open() ==> t.pending_depth_clear
                == Some(value)
            &&& s.depth_cleared(value).1 is Folded ==> s.depth_texture != 0
            &&& s.depth_cleared(value).1 is EmitQuad ==> t.is_open() && s.effective_viewport().2
                != 0 && s.effective_viewport().3 != 0
            &&& forall|k: int|
                0 <= k < s.passes.len() - 1 ==> #[trigger] t.passes[k] == s.passes[k]
            &&& s.passes.len() > 0 ==> t.passes[s.passes.len() - 1].commands
                == s.passes.last().commands
        }),
{
}

/// The same of stencil clears.
pub proof fn stencil_clears_reach_the_image(s: PassStateView, value: u32)
    ensures
        ({
            let t = s.stencil_cleared(value).0;
            let drawn = s.is_open() && s.passes.last().commands.len() > 1;
            &&& s.depth_texture == 0 || s.depth_sample_count != s.color_sample_count ==> t == s
                && s.stencil_cleared(value).1 is NoOp
            &&& s.stencil_cleared(value).1 is NoOp ==> t == s
            &&& s.stencil_cleared(value).1 is Folded && t.is_open() ==> !drawn
                && t.passes.last().stencil_load == (StencilLoad::Clear { value })
            &&& s.stencil_cleared(value).1 is Folded && !t.is_open() ==> t.pending_stencil_clear
                == Some(value)
            &&& s.stencil_cleared(value).1 is Folded ==> s.depth_texture != 0
            &&& s.stencil_cleared(value).1 is EmitQuad ==> t.is_open() && s.effective_viewport().2
                != 0 && s.effective_viewport().3 != 0
            &&& forall|k: int|
                0 <= k < s.passes.len() - 1 ==> #[trigger] t.passes[k] == s.passes[k]
            &&& s.passes.len() > 0 ==> t.passes[s.passes.len() - 1].commands
                == s.passes.last().commands
        }),
{
}

/// A pass loses its colour only if none of its draws writes any: no draw that is noted to
/// write colour, no resolve and no colour clear is in it, and what is left of its commands
/// are all those outside painted clears, in their order.
pub proof fn only_colourless_passes_lose_their_colour(
    s: PassStateView,
    ps: Seq<PassView>,
    alt: Map<u64, u64>,
    i: int,
)
    requires
        0 <= i < ps.len(),
    ensures
        s.colorless_passes(ps, alt).0.len() == ps.len(),
        s.colorless_passes(ps, alt).0[i] != ps[i] ==> {
            &&& !ps[i].color_writes_observed
            &&& ps[i].depth_texture != 0
            &&& !(ps[i].color.load is Clear)
            &&& ps[i].color.resolve_texture == 0
            &&& s.colorless_passes(ps, alt).0[i].color.texture == 0
            &&& s.colorless_passes(ps, alt).0[i].depth_texture == ps[i].depth_texture
            &&& s.colorless_passes(ps, alt).0[i].depth_load == ps[i].depth_load
            &&& s.colorless_passes(ps, alt).0[i].depth_store == ps[i].depth_store
        },
        s.colorless_passes(ps, alt).0[i] != ps[i] && ps[i].quad_ranges.len() > 0
            && ps[i].color.texture != 0 ==> ps[i].color.texture != s.backbuffer
            && !s.ever_sampled.contains(ps[i].color.texture),
    decreases ps.len(),
{
    let (rest, loaded) = s.colorless_passes(ps.drop_first(), alt);
    let p = ps[0];
    if i > 0 {
        only_colourless_passes_lose_their_colour(s, ps.drop_first(), alt, i - 1);
        assert(ps.drop_first()[i - 1] == ps[i]);
    } else {
        if ps.len() > 1 {
            only_colourless_passes_lose_their_colour(s, ps.drop_first(), alt, 0);
        }
        assert(p.color_at(0) == p.color);
        if p.color_is_removable(alt) {
            assert(p.color_at(0).resolve_texture == 0);
            if p.quad_ranges.len() > 0 && s.texture_observed(p.color.texture, rest, loaded) {
                assert(p.color_at(0).is_bound_spec());
                assert(s.color_observed_later(p, rest, loaded));
            }
        }
    }
}

/// A clear moves from a pass that does nothing else to the pass it is found a place in: that
/// pass attaches the same images, loaded them, and now clears them to the same values; what
/// it draws stays as it is.
pub proof fn moved_clears_clear_the_same_images(
    ps: Seq<PassView>,
    p: PassView,
    j: int,
    twins: Map<u64, u64>,
)
    requires
        0 <= j,
        p.extra.len() == 3,
    ensures
        merge_target(ps, p, j, twins) matches Some(t) ==> {
            let q = ps[t].with_clears_of(p);
            let idle = p.leading_blits.len() == 0 && forall|i: int|
                0 <= i < p.commands.len() ==> !(#[trigger] p.commands[i]).is_draw_spec();
            &&& q.commands == ps[t].commands && q.leading_blits == ps[t].leading_blits
            &&& q.color.texture == ps[t].color.texture && q.depth_texture == ps[t].depth_texture
            &&& idle && p.color.load is Clear ==> q.color.load == p.color.load && q.color.texture
                == p.color.texture && q.color.subresource == p.color.subresource
                && ps[t].color.load is Load
            &&& idle && p.depth_load is Clear ==> q.depth_load == p.depth_load && q.depth_texture
                == p.depth_texture && ps[t].depth_load is Load
            &&& idle && p.depth_texture != 0 && p.stencil_load is Clear ==> q.stencil_load
                == p.stencil_load && q.depth_texture == p.depth_texture
                && ps[t].stencil_load is Load
            &&& !idle ==> q.color.load == ps[t].color.load && q.depth_load == ps[t].depth_load
                && q.stencil_load == ps[t].stencil_load
        },
{
    moved_clears_pass_nobody(ps, p, j, twins);
}

/// No pass between the place a clear leaves and the place it moves to samples, blits into,
/// resolves into or attaches what is cleared.
pub proof fn moved_clears_cross_no_use(
    ps: Seq<PassView>,
    p: PassView,
    j: int,
    m: int,
    twins: Map<u64, u64>,
)
    requires
        0 <= j <= m,
        p.extra.len() == 3,
        p.leading_blits.len() == 0,
        forall|i: int| 0 <= i < p.commands.len() ==> !(#[trigger] p.commands[i]).is_draw_spec(),
    ensures
        merge_target(ps, p, j, twins) matches Some(t) && m < t && p.color.load is Clear
            && p.color.texture != 0 ==> {
            &&& !ps[m].reads_texture(p.color.texture, twins)
            &&& !ps[m].blits_into(p.color.texture)
            &&& !(ps[m].color.texture == p.color.texture && ps[m].color.subresource
                == p.color.subresource)
        },
        merge_target(ps, p, j, twins) matches Some(t) && m < t && p.depth_load is Clear
            && p.depth_texture != 0 ==> {
            &&& !ps[m].reads_texture(p.depth_texture, twins)
            &&& !ps[m].blits_into(p.depth_texture)
            &&& ps[m].depth_texture == p.depth_texture ==> !(ps[m].depth_load is Load) && !(
            ps[m].depth_load is Clear)
        },
{
    moved_clears_pass_nobody(ps, p, j, twins);
    match merge_target(ps, p, j, twins) {
        Some(t) => {
            if m < t {
                let q = ps[m];
                assert(!q.blocks_clears_of(p, twins));
                assert(!q.consumes_clears_of(p));
                if p.color.load is Clear && p.color.texture != 0 {
                    assert(p.only_clears_color());
                    assert(!q.disturbs_slot(p, 0, twins));
                    assert(p.color_at(0) == p.color);
                    if q.color.texture == p.color.texture && q.color.subresource
                        == p.color.subresource {
                        assert(q.color_at(0).texture == p.color.texture);
                        assert(q.attaches_color(p.color_at(0).texture, p.color_at(0).subresource));
                    }
                }
            }
        },
        None => {},
    }
}

/// Whether a pass draws onto a texture, as colour or as depth.
pub open spec fn draws_onto(p: PassView, x: u64) -> bool {
    x != 0 && (x == p.color.texture || x == p.depth_texture)
}

/// Whether a command of a pass binds a texture, or an sRGB view of it, for sampling.
pub open spec fn samples(p: PassView, x: u64, twins: Map<u64, u64>) -> bool {
    exists|i: int|
        0 <= i < p.commands.len() && {
            let c = #[trigger] p.commands[i];
            &&& c.cmd == CommandType::SetFragmentTexture || c.cmd == CommandType::SetVertexTexture
            &&& c.param_b != 0
            &&& x == (if twins.contains_key(c.param_b) {
                twins[c.param_b]
            } else {
                c.param_b
            })
        }
}

/// A pass that joins an earlier one crosses only passes that neither draw onto nor sample
/// what it draws onto, and do not draw onto what it samples.
pub proof fn joining_passes_cross_nothing_they_touch(
    ps: Seq<PassView>,
    index: int,
    m: int,
    twins: Map<u64, u64>,
    x: u64,
)
    ensures
        join_target(ps, index, index - 1, twins) matches Some(t) && t < m < index ==> {
            &&& draws_onto(ps[index], x) ==> !draws_onto(ps[m], x) && !samples(ps[m], x, twins)
            &&& samples(ps[index], x, twins) ==> !draws_onto(ps[m], x)
        },
{
    join_crosses_only_independent_passes(ps, index, index - 1, twins);
    match join_target(ps, index, index - 1, twins) {
        Some(t) => {
            if t < m < index {
                let a = ps[index].access(twins);
                let b = ps[m].access(twins);
                assert(a.independent_of(b));
                assert(b.writes.contains(x) == draws_onto(ps[m], x));
                assert(a.writes.contains(x) == draws_onto(ps[index], x));
                assert(b.reads.contains(x) == samples(ps[m], x, twins));
                assert(a.reads.contains(x) == samples(ps[index], x, twins));
            }
        },
        None => {},
    }
}

/// A pass joins one with the same images, sizes and viewport, and only if it loads what the
/// earlier pass leaves; neither runs blits first, resolves or counts pixels.
pub proof fn joined_passes_draw_onto_the_same_images(
    ps: Seq<PassView>,
    index: int,
    twins: Map<u64, u64>,
)
    requires
        0 <= index < ps.len(),
        ps[index].access(twins).movable,
    ensures
        join_target(ps, index, index - 1, twins) matches Some(t) ==> {
            let p = ps[t];
            let q = ps[index];
            &&& 0 <= t < index
            &&& p.color.texture == q.color.texture
            &&& p.color.subresource == q.color.subresource
            &&& p.color.size == q.color.size
            &&& p.depth_texture == q.depth_texture
            &&& p.depth_level == q.depth_level
            &&& p.viewport == q.viewport
            &&& q.color.texture != 0 ==> q.color.load is Load
            &&& q.depth_texture != 0 ==> q.depth_load is Load && q.stencil_load is Load
            &&& p.leading_blits.len() == 0 && q.leading_blits.len() == 0
            &&& !p.has_counting_visibility && !q.has_counting_visibility
            &&& p.color.resolve_texture == 0 && q.color.resolve_texture == 0
            &&& p.color.msaa_texture == 0 && q.color.msaa_texture == 0
        },
{
    join_crosses_only_independent_passes(ps, index, index - 1, twins);
}

/// Two passes joined run the commands of the first, then those of the second, with no draw
/// between; what is attached, loaded and stored is that of the first.
pub proof fn joined_passes_run_both(p: PassView, q: PassView, i: int)
    ensures
        ({
            let j = p.joined(q);
            let gap = j.commands.len() - p.commands.len() - q.commands.len();
            &&& gap == 3
            &&& 0 <= i < p.commands.len() ==> j.commands[i] == p.commands[i]
            &&& 0 <= i < q.commands.len() ==> j.commands[p.commands.len() + gap + i]
                == q.commands[i]
            &&& 0 <= i < gap ==> !j.commands[p.commands.len() + i].is_draw_spec()
            &&& j.color == p.color && j.extra == p.extra && j.depth_texture == p.depth_texture
            &&& j.depth_load == p.depth_load && j.stencil_load == p.stencil_load
            &&& j.depth_store == p.depth_store && j.viewport == p.viewport
            &&& j.leading_blits == p.leading_blits
            &&& j.color_writes_observed == (p.color_writes_observed || q.color_writes_observed)
        }),
{
}

} // verus!
