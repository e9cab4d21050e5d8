//! What holds of the pass machine as a whole.

use super::attachment::{DepthResolve, FrameReset, PassColorAttachment, UploadPassTarget};
use super::cache::{LastBoundView, ShadowView};
use super::coalesce::{coalesced, merge_target, moved_clears_pass_nobody};
use super::merge::{join_crosses_only_independent_passes, join_target, merged};
use super::model::{packed_subresource, PassStateView, PassView};
use super::store::{
    depth_stores_settled, is_last_msaa_use, is_last_use, last_use_rule, map_uses, next_clear_rule,
    next_use_clears, resolve_rule, uses, uses_msaa, walked_before,
};
use super::{ColorLoad, DepthLoad, Rect, StencilLoad};
use crate::metal::{Command, CommandType, CullMode, PixelFormat, RenderScale};
use vstd::prelude::*;

verus! {

/// After opening, a pass is open; opening again changes nothing.
pub proof fn opening_twice_is_opening_once(s: PassStateView)
    ensures
        s.opened().is_open(),
        s.opened().opened() == s.opened(),
{
}

/// Recording a command adds it to the end of the last pass and leaves every pass before that
/// one alone. No recorded command is lost or changed.
pub proof fn emitting_only_appends(s: PassStateView, cmd: Command)
    ensures
        s.emitted(cmd).passes.last().commands.last() == cmd,
        s.emitted(cmd).passes.last().commands.drop_last() == s.opened().passes.last().commands,
        forall|j: int|
            0 <= j < s.emitted(cmd).passes.len() - 1 ==> #[trigger] s.emitted(cmd).passes[j]
                == s.opened().passes[j],
        s.is_open() ==> s.opened() == s,
        !s.is_open() ==> s.opened().passes.drop_last() == s.passes,
{
    assert(s.emitted(cmd).passes.last().commands.drop_last()
        =~= s.opened().passes.last().commands);
    if !s.is_open() {
        assert(s.opened().passes.drop_last() =~= s.passes);
    }
}

/// A colour clear that was folded is the load action of render target 0 in the pass that the
/// next command goes to.
pub proof fn folded_color_clear_reaches_its_pass(s: PassStateView, rgba: (u32, u32, u32, u32))
    ensures
        s.color_cleared(rgba).1 is Folded ==> s.color_cleared(
            rgba,
        ).0.opened().passes.last().color.load == (ColorLoad::Clear {
            r: rgba.0,
            g: rgba.1,
            b: rgba.2,
            a: rgba.3,
        }),
{
}

/// The same for depth.
pub proof fn folded_depth_clear_reaches_its_pass(s: PassStateView, value: u32)
    ensures
        s.depth_cleared(value).1 is Folded ==> s.depth_cleared(
            value,
        ).0.opened().passes.last().depth_load == (DepthLoad::Clear { value }),
{
}

/// The same for stencil.
pub proof fn folded_stencil_clear_reaches_its_pass(s: PassStateView, value: u32)
    ensures
        s.stencil_cleared(value).1 is Folded ==> s.stencil_cleared(
            value,
        ).0.opened().passes.last().stencil_load == (StencilLoad::Clear { value }),
{
}

/// A clear that the caller paints is painted in an open pass that keeps what it had, and a
/// clear that had nothing to do did nothing.
pub proof fn painted_clears_find_their_pass_open(s: PassStateView, rgba: (u32, u32, u32, u32), value: u32)
    ensures
        s.color_cleared(rgba).1 is EmitQuad ==> s.color_cleared(rgba).0.is_open() && !(
        s.color_cleared(rgba).0.passes.last().color.load is Clear && !s.has_work()),
        s.depth_cleared(value).1 is EmitQuad ==> s.depth_cleared(value).0.is_open() && !(
        s.depth_cleared(value).0.passes.last().depth_load is Clear && !s.has_work()),
        s.stencil_cleared(value).1 is EmitQuad ==> s.stencil_cleared(value).0.is_open() && !(
        s.stencil_cleared(value).0.passes.last().stencil_load is Clear && !s.has_work()),
        s.depth_cleared(value).1 is NoOp ==> s.depth_cleared(value).0 == s,
        s.stencil_cleared(value).1 is NoOp ==> s.stencil_cleared(value).0 == s,
{
}

/// A stencil clear leaves the depth plane of every pass alone, and a depth clear the stencil
/// plane.
pub proof fn planes_clear_apart(s: PassStateView, value: u32)
    ensures
        s.stencil_cleared(value).0.pending_depth_clear == s.pending_depth_clear
            || s.stencil_cleared(value).0.passes.last().depth_load == s.next_depth_load(),
        s.depth_cleared(value).0.pending_stencil_clear == s.pending_stencil_clear
            || s.depth_cleared(value).0.passes.last().stencil_load == s.next_stencil_load(),
        s.is_open() && s.stencil_cleared(value).0.passes.len() == s.passes.len()
            ==> s.stencil_cleared(value).0.passes.last().depth_load == s.passes.last().depth_load,
        s.is_open() && s.depth_cleared(value).0.passes.len() == s.passes.len() ==> s.depth_cleared(
            value,
        ).0.passes.last().stencil_load == s.passes.last().stencil_load,
{
}

/// Rule A discards only what nobody needs: the attachment was not used before in the frame,
/// nothing ever sampled it, no blit wrote it, and no clear waits for it.
pub proof fn first_use_discards_are_safe(s: PassStateView, texture: u64, subresource: u32)
    ensures
        s.color_load_for(texture, subresource) is DontCare ==> !s.seen_color.contains(
            (texture, subresource),
        ) && !s.ever_sampled.contains(texture) && !s.blit_written.contains(texture)
            && s.pending_color_clear is None,
        s.next_depth_load() is DontCare || s.next_stencil_load() is DontCare ==> !s.seen_depth.contains(
            s.depth_texture,
        ) && !s.ever_sampled.contains(s.depth_texture) && !s.blit_written.contains(s.depth_texture)
            && !s.attachments.depth_sampleable,
{
}

/// Once the load actions are settled, no attachment that anything samples is discarded when
/// its pass begins.
pub proof fn settled_loads_keep_sampled_content(p: PassView, sampled: Set<u64>, slot: int)
    requires
        p.extra.len() == 3,
        0 <= slot < 4,
        p.color_at(slot).is_bound_spec(),
    ensures
        sampled.contains(p.color_at(slot).texture) ==> !(p.loads_settled(sampled).color_at(
            slot,
        ).load is DontCare),
        sampled.contains(p.depth_texture) ==> !(p.loads_settled(sampled).depth_load is DontCare)
            && !(p.loads_settled(sampled).stencil_load is DontCare),
        p.loads_settled(sampled).color_at(slot).texture == p.color_at(slot).texture,
{
}

/// Binding what is bound keeps the pass going, and does not touch what is recorded.
pub proof fn rebinding_the_same_target_keeps_the_pass(
    s: PassStateView,
    logical: (u32, u32),
    scale: RenderScale,
)
    requires
        s.color_size == (scale.dimension_spec(logical.0), scale.dimension_spec(logical.1)),
    ensures
        ({
            let t = s.with_color_target(
                s.color_texture,
                logical,
                s.color_format,
                scale,
                s.color_subresource,
            );
            t.passes == s.passes && t.closed == s.closed && t.pending_color_clear
                == s.pending_color_clear
        }),
        ({
            let t = s.with_depth_target(
                s.depth_texture,
                s.depth_level,
                s.depth_size,
                s.attachments.depth_sampleable,
                s.attachments.depth_has_stencil,
            );
            t.passes == s.passes && t.closed == s.closed && t.depth_size == s.depth_size
        }),
{
}

/// A clear that waits when its target is replaced still reaches that target: it becomes a
/// pass of its own, on the outgoing attachment.
pub proof fn waiting_clear_lands_on_the_outgoing_target(
    s: PassStateView,
    texture: u64,
    logical: (u32, u32),
    format: PixelFormat,
    scale: RenderScale,
    subresource: u32,
)
    requires
        s.pending_color_clear is Some,
        !s.is_open(),
        texture != s.color_texture || subresource != s.color_subresource,
    ensures
        ({
            let t = s.with_color_target(texture, logical, format, scale, subresource);
            let p = t.passes.last();
            let c = s.pending_color_clear->0;
            &&& t.passes.len() == s.passes.len() + 1
            &&& t.closed
            &&& t.pending_color_clear is None
            &&& p.color.texture == s.color_texture
            &&& p.color.subresource == s.color_subresource
            &&& p.color.load == (ColorLoad::Clear { r: c.0, g: c.1, b: c.2, a: c.3 })
        }),
{
}

/// Taking the colour bindings off and putting them back restores every one of them. The
/// texture size has to be the one its logical size and scale give, and a sample count above
/// one has to come with a multisampled companion.
pub proof fn taken_bindings_come_back(s: PassStateView)
    requires
        s.shaped(),
        s.color_size == (
            s.color_scale.dimension_spec(s.color_logical_size.0),
            s.color_scale.dimension_spec(s.color_logical_size.1),
        ),
        s.color_sample_count >= 1,
        s.color_msaa == 0 ==> s.color_sample_count == 1 && s.color_msaa_srgb == 0,
    ensures
        ({
            let t = s.extras_taken().color_restored(s.saved_color());
            &&& t.color_texture == s.color_texture
            &&& t.color_msaa == s.color_msaa
            &&& t.color_msaa_srgb == s.color_msaa_srgb
            &&& t.color_sample_count == s.color_sample_count
            &&& t.color_subresource == s.color_subresource
            &&& t.color_size == s.color_size
            &&& t.color_logical_size == s.color_logical_size
            &&& t.color_format == s.color_format
            &&& t.color_scale == s.color_scale
            &&& t.attachments.color_has_alpha == s.attachments.color_has_alpha
            &&& t.extra == s.extra
        }),
{
    let sub = s.color_subresource;
    assert((sub & 0xff) | ((sub >> 8) << 8) == sub) by (bit_vector);
    assert(packed_subresource(s.saved_color().slice, s.saved_color().level) == sub);
}

/// Once a texture is unregistered, nothing is recorded about it.
pub proof fn unregistered_textures_leave_no_trace(s: PassStateView, texture: u64, subresource: u32)
    requires
        texture != 0,
    ensures
        ({
            let t = s.forgotten(texture);
            &&& !t.seen_color.contains((texture, subresource))
            &&& !t.segment_color.contains((texture, subresource))
            &&& !t.seen_depth.contains(texture)
            &&& !t.segment_depth.contains(texture)
            &&& !t.blit_written.contains(texture)
            &&& !t.ever_sampled.contains(texture)
            &&& !t.frame_sampled.contains(texture)
            &&& !t.sampleable_depth.contains(texture)
            &&& !t.caster_writes.contains_key(texture)
            &&& !t.cascade_samples.contains_key(texture)
        }),
        forall|other: u64|
            other != texture ==> s.forgotten(texture).ever_sampled.contains(other)
                == s.ever_sampled.contains(other),
{
}

/// A retired depth texture is no longer bound.
pub proof fn retired_depth_is_unbound(s: PassStateView, texture: u64)
    requires
        texture != 0,
    ensures
        s.depth_retired(texture).depth_texture != texture,
        !s.depth_retired(texture).seen_depth.contains(texture),
        !s.depth_retired(texture).ever_sampled.contains(texture),
{
}

/// A registered sRGB view is found from its texture, and the texture from the view; once
/// unregistered, neither is.
pub proof fn twins_are_found_both_ways(s: PassStateView, twin: u64, base: u64)
    requires
        twin != 0,
        base != 0,
    ensures
        s.with_twin(twin, base).twin_of(base) == twin,
        s.with_twin(twin, base).twin_to_base[twin] == base,
        s.with_twin(twin, base).without_twin(twin).twin_of(base) == 0,
        !s.with_twin(twin, base).without_twin(twin).twin_to_base.contains_key(twin),
{
}

/// A pass that samples an sRGB view counts as reading the texture behind it.
pub proof fn sampling_a_twin_samples_its_base(s: PassStateView, cmd: Command)
    requires
        cmd.cmd == CommandType::SetFragmentTexture,
        cmd.param_b != 0,
        s.twin_to_base.contains_key(cmd.param_b),
    ensures
        s.emitted(cmd).ever_sampled.contains(cmd.param_b),
        s.emitted(cmd).ever_sampled.contains(s.twin_to_base[cmd.param_b]),
        s.emitted(cmd).frame_sampled.contains(s.twin_to_base[cmd.param_b]),
        s.twin_to_base[cmd.param_b] != 0 ==> s.emitted(cmd).passes.last().reads_texture(
            s.twin_to_base[cmd.param_b],
            s.twin_to_base,
        ),
{
    let p = s.emitted(cmd).passes.last();
    let n = p.commands.len() - 1;
    assert(p.commands[n] == cmd);
}

/// A new frame keeps the game's viewport and what was ever sampled; it keeps what was used
/// in the frame exactly when the frame goes on.
pub proof fn frames_keep_what_outlives_them(s: PassStateView, r: FrameReset)
    ensures
        ({
            let t = s.frame_started(r);
            &&& t.game_viewport == s.game_viewport && t.min_z == s.min_z && t.max_z == s.max_z
            &&& t.ever_sampled == s.ever_sampled
            &&& t.sampleable_depth == s.sampleable_depth
            &&& t.passes.len() == 0 && !t.is_open() && !t.has_pending_clear()
            &&& t.segment_color == Set::<(u64, u32)>::empty()
            &&& t.segment_depth == Set::<u64>::empty()
            &&& t.frame_sampled == Set::<u64>::empty()
            &&& r.continues_frame ==> t.seen_color == s.seen_color && t.seen_depth == s.seen_depth
            &&& !r.continues_frame ==> t.seen_color == Set::<(u64, u32)>::empty() && t.seen_depth
                == Set::<u64>::empty()
        }),
{
}

// -- store actions --------------------------------------------------------------------------

/// What Rules B and C, and for a finished frame D, leave before resolves are assigned.
spec fn before_resolves(s: PassStateView, frame_continues: bool) -> Seq<PassView> {
    let b = if frame_continues {
        s.passes
    } else {
        depth_stores_settled(s.passes, s.ever_sampled)
    };
    let c = map_uses(b, next_clear_rule(b, s.ever_sampled));
    if frame_continues {
        c
    } else {
        map_uses(c, last_use_rule(c, s.ever_sampled, s.backbuffer))
    }
}

/// The store rules never discard content that anything samples.
pub proof fn sampled_content_is_stored(s: PassStateView, frame_continues: bool, i: int, slot: int)
    requires
        0 <= i < s.passes.len(),
        0 <= slot < 4,
        s.passes[i].extra.len() == 3,
        s.ever_sampled.contains(s.passes[i].color_at(slot).texture),
    ensures
        s.stores_settled(frame_continues).passes[i].color_at(slot).store
            == s.passes[i].color_at(slot).store,
{
}

/// Depth that can be sampled, or was, keeps its store action; on a flush every depth does.
pub proof fn sampled_depth_is_stored(s: PassStateView, frame_continues: bool, i: int)
    requires
        0 <= i < s.passes.len(),
        frame_continues || s.passes[i].depth_is_sampleable || s.ever_sampled.contains(
            s.passes[i].depth_texture,
        ),
    ensures
        s.stores_settled(frame_continues).passes[i].depth_store == s.passes[i].depth_store,
{
}

/// The last pass onto the back buffer keeps its store action: what is presented is stored.
pub proof fn the_presented_image_is_stored(s: PassStateView, frame_continues: bool, i: int, slot: int)
    requires
        forall|j: int| 0 <= j < s.passes.len() ==> (#[trigger] s.passes[j]).extra.len() == 3,
        0 <= i < s.passes.len(),
        0 <= slot < 4,
        s.passes[i].color_at(slot).is_bound_spec(),
        s.passes[i].color_at(slot).texture == s.backbuffer,
        is_last_use(s.passes, i, slot),
    ensures
        s.stores_settled(frame_continues).passes[i].color_at(slot).store
            == s.passes[i].color_at(slot).store,
{
    let b = if frame_continues {
        s.passes
    } else {
        depth_stores_settled(s.passes, s.ever_sampled)
    };
    let a = s.passes[i].color_at(slot);
    let key = (a.texture, a.subresource);
    assert forall|j: int, k: int| uses(b, j, k, key) == #[trigger] uses(s.passes, j, k, key) by {
        if 0 <= j < b.len() && 0 <= k < 4 {
            assert(b[j].color_at(k) == s.passes[j].color_at(k));
        }
    }
    assert(!next_use_clears(b, i, slot)) by {
        if next_use_clears(b, i, slot) {
            let (j, k) = choose|j: int, k: int| #[trigger]
                super::store::is_next_use(b, key, i, slot, j, k) && b[j].color_at(k).load is Clear;
            assert(uses(b, j, k, key));
            assert(uses(s.passes, j, k, key));
        }
    }
}

/// Every subresource with a multisampled companion that a pass draws into is resolved by
/// some pass of the submission.
pub proof fn multisampled_targets_are_resolved(
    s: PassStateView,
    frame_continues: bool,
    i: int,
    slot: int,
)
    requires
        forall|j: int| 0 <= j < s.passes.len() ==> (#[trigger] s.passes[j]).extra.len() == 3,
        0 <= i < s.passes.len(),
        0 <= slot < 4,
        s.passes[i].color_at(slot).msaa_texture != 0,
    ensures
        exists|j: int, k: int|
            0 <= j < s.passes.len() && 0 <= k < 4 && (
            #[trigger] s.stores_settled(frame_continues).passes[j].color_at(k)).resolve_texture
                == s.passes[j].color_at(k).resolve_view_spec() && s.passes[j].color_at(k).texture
                == s.passes[i].color_at(slot).texture && s.passes[j].color_at(k).subresource
                == s.passes[i].color_at(slot).subresource && s.passes[j].color_at(k).msaa_texture
                != 0,
{
    let d = before_resolves(s, frame_continues);
    let a = s.passes[i].color_at(slot);
    let key = (a.texture, a.subresource);
    assert forall|j: int| 0 <= j < d.len() implies (#[trigger] d[j]).extra.len() == 3 by {}
    assert forall|j: int, k: int| 0 <= j < d.len() && 0 <= k < 4 implies ({
        let x = #[trigger] d[j].color_at(k);
        let y = s.passes[j].color_at(k);
        x.texture == y.texture && x.subresource == y.subresource && x.msaa_texture
            == y.msaa_texture && x.srgb_texture == y.srgb_texture
    }) by {}
    assert(uses_msaa(d, i, slot, key));
    let (j, k) = lemma_last_msaa_use_exists(d, key, i, slot);
    let out = s.stores_settled(frame_continues).passes;
    assert(out == map_uses(d, resolve_rule(d)));
    assert(out[j].color_at(k) == resolve_rule(d)(j, k, d[j].color_at(k)));
}

proof fn lemma_last_msaa_use_exists(ps: Seq<PassView>, key: (u64, u32), i: int, slot: int) -> (r: (
    int,
    int,
))
    requires
        uses_msaa(ps, i, slot, key),
    ensures
        uses_msaa(ps, r.0, r.1, key),
        is_last_msaa_use(ps, r.0, r.1),
    decreases ps.len() - i, slot,
{
    if is_last_msaa_use(ps, i, slot) {
        (i, slot)
    } else {
        let (j, s) = choose|j: int, s: int| #[trigger]
            uses_msaa(ps, j, s, key) && walked_before(j, s, i, slot);
        lemma_last_msaa_use_exists(ps, key, j, s)
    }
}

// -- no draw is lost ------------------------------------------------------------------------

/// How many of some commands draw.
pub open spec fn draw_count(commands: Seq<Command>) -> nat
    decreases commands.len(),
{
    if commands.len() == 0 {
        0
    } else {
        draw_count(commands.drop_last()) + if commands.last().is_draw_spec() {
            1nat
        } else {
            0
        }
    }
}

/// How many draws some passes hold.
pub open spec fn total_draws(ps: Seq<PassView>) -> nat
    decreases ps.len(),
{
    if ps.len() == 0 {
        0
    } else {
        total_draws(ps.drop_last()) + draw_count(ps.last().commands)
    }
}

proof fn lemma_draw_count_concat(a: Seq<Command>, b: Seq<Command>)
    ensures
        draw_count(a + b) == draw_count(a) + draw_count(b),
    decreases b.len(),
{
    if b.len() == 0 {
        assert(a + b =~= a);
    } else {
        assert((a + b).drop_last() =~= a + b.drop_last());
        lemma_draw_count_concat(a, b.drop_last());
    }
}

proof fn lemma_no_draw_counts_zero(commands: Seq<Command>)
    requires
        forall|i: int| 0 <= i < commands.len() ==> !(#[trigger] commands[i]).is_draw_spec(),
    ensures
        draw_count(commands) == 0,
    decreases commands.len(),
{
    if commands.len() > 0 {
        assert forall|i: int| 0 <= i < commands.drop_last().len() implies !(
        #[trigger] commands.drop_last()[i]).is_draw_spec() by {
            assert(commands.drop_last()[i] == commands[i]);
        }
        lemma_no_draw_counts_zero(commands.drop_last());
        assert(!commands[commands.len() - 1].is_draw_spec());
    }
}

proof fn lemma_total_update(ps: Seq<PassView>, i: int, p: PassView)
    requires
        0 <= i < ps.len(),
    ensures
        total_draws(ps.update(i, p)) + draw_count(ps[i].commands) == total_draws(ps) + draw_count(
            p.commands,
        ),
    decreases ps.len(),
{
    let u = ps.update(i, p);
    if i == ps.len() - 1 {
        assert(u.drop_last() =~= ps.drop_last());
    } else {
        assert(u.drop_last() =~= ps.drop_last().update(i, p));
        lemma_total_update(ps.drop_last(), i, p);
    }
}

proof fn lemma_total_remove(ps: Seq<PassView>, i: int)
    requires
        0 <= i < ps.len(),
    ensures
        total_draws(ps.remove(i)) + draw_count(ps[i].commands) == total_draws(ps),
    decreases ps.len(),
{
    let r = ps.remove(i);
    if i == ps.len() - 1 {
        assert(r =~= ps.drop_last());
    } else {
        assert(r.drop_last() =~= ps.drop_last().remove(i));
        lemma_total_remove(ps.drop_last(), i);
    }
}

/// Dropping passes that nothing can observe drops no draw.
pub proof fn culling_keeps_every_draw(ps: Seq<PassView>)
    ensures
        total_draws(ps.filter(|p: PassView| p.is_observable())) == total_draws(ps),
    decreases ps.len(),
{
    reveal(Seq::filter);
    let keep = |p: PassView| p.is_observable();
    if ps.len() > 0 {
        culling_keeps_every_draw(ps.drop_last());
        let f = ps.drop_last().filter(keep);
        let p = ps.last();
        if keep(p) {
            assert(ps.filter(keep) =~= f.push(p));
            assert(f.push(p).drop_last() =~= f);
        } else {
            assert(!p.has_draw());
            lemma_no_draw_counts_zero(p.commands);
        }
    }
}

/// Folding clears into later passes drops no draw.
pub proof fn coalescing_keeps_every_draw(ps: Seq<PassView>, i: int, twin_to_base: Map<u64, u64>)
    requires
        0 <= i,
    ensures
        total_draws(coalesced(ps, i, twin_to_base)) == total_draws(ps),
    decreases ps.len() - i,
{
    if i < ps.len() {
        if ps[i].only_clears() {
            moved_clears_pass_nobody(ps, ps[i], i + 1, twin_to_base);
            match merge_target(ps, ps[i], i + 1, twin_to_base) {
                Some(t) => {
                    let u = ps.update(t, ps[t].with_clears_of(ps[i]));
                    lemma_total_update(ps, t, ps[t].with_clears_of(ps[i]));
                    lemma_total_remove(u, i);
                    assert(u[i] == ps[i]);
                    assert(!ps[i].has_draw());
                    lemma_no_draw_counts_zero(ps[i].commands);
                    coalescing_keeps_every_draw(u.remove(i), i, twin_to_base);
                },
                None => {
                    coalescing_keeps_every_draw(ps, i + 1, twin_to_base);
                },
            }
        } else {
            coalescing_keeps_every_draw(ps, i + 1, twin_to_base);
        }
    }
}

/// Merging passes drops no draw and adds none.
pub proof fn merging_keeps_every_draw(ps: Seq<PassView>, index: int, twin_to_base: Map<u64, u64>)
    requires
        0 <= index,
    ensures
        total_draws(merged(ps, index, twin_to_base)) == total_draws(ps),
    decreases ps.len() - index,
{
    if index < ps.len() {
        join_crosses_only_independent_passes(ps, index, index - 1, twin_to_base);
        let target = if ps[index].access(twin_to_base).movable {
            join_target(ps, index, index - 1, twin_to_base)
        } else {
            None
        };
        match target {
            Some(t) => {
                let j = ps[t].joined(ps[index]);
                let f = PassView::fresh_state();
                lemma_draw_count_concat(ps[t].commands + f, ps[index].commands);
                lemma_draw_count_concat(ps[t].commands, f);
                lemma_no_draw_counts_zero(f);
                let u = ps.update(t, j);
                lemma_total_update(ps, t, j);
                lemma_total_remove(u, index);
                assert(u[index] == ps[index]);
                merging_keeps_every_draw(u.remove(index), index, twin_to_base);
            },
            None => {
                merging_keeps_every_draw(ps, index + 1, twin_to_base);
            },
        }
    }
}

/// Each of two merged passes keeps the order of its commands: those of the earlier one come
/// first, then the state of a fresh pass, then those of the later one.
pub proof fn merged_passes_keep_their_order(a: PassView, b: PassView)
    ensures
        a.joined(b).commands.take(a.commands.len() as int) == a.commands,
        a.joined(b).commands.skip(a.commands.len() as int + 3) == b.commands,
{
    assert(a.joined(b).commands.take(a.commands.len() as int) =~= a.commands);
    assert(a.joined(b).commands.skip(a.commands.len() as int + 3) =~= b.commands);
}

/// Taking colour off a pass drops commands of painted colour clears only: a command outside
/// them keeps its kind and its place among the others.
pub proof fn colorless_passes_keep_real_commands(p: PassView, alt: Map<u64, u64>, n: nat)
    requires
        n <= p.commands.len(),
        forall|i: int| 0 <= i < n ==> !p.in_quad(i),
    ensures
        p.colorless_commands(alt, n).len() == n,
        forall|i: int|
            0 <= i < n ==> (#[trigger] p.colorless_commands(alt, n)[i]).cmd == p.commands[i].cmd,
    decreases n,
{
    if n > 0 {
        colorless_passes_keep_real_commands(p, alt, (n - 1) as nat);
        let before = p.colorless_commands(alt, (n - 1) as nat);
        assert(!p.in_quad(n - 1));
        assert forall|i: int| 0 <= i < n implies (#[trigger] p.colorless_commands(alt, n)[i]).cmd
            == p.commands[i].cmd by {
            if i < n - 1 {
                assert(p.colorless_commands(alt, n)[i] == before[i]);
            }
        }
    }
}

/// Whether every painted clear of every pass lies within its commands.
pub open spec fn clears_in_bounds(s: PassStateView) -> bool {
    forall|k: int| 0 <= k < s.passes.len() ==> (#[trigger] s.passes[k]).ranges_in_bounds()
}

/// Painted clears lie within the commands of their pass, and opening a pass, recording a
/// command and closing a block keep that so, wherever the block is said to begin.
pub proof fn painted_clears_stay_in_bounds(s: PassStateView, cmd: Command, start: usize)
    requires
        clears_in_bounds(s),
        s.passes.len() > 0 ==> s.passes.last().commands.len() <= usize::MAX,
    ensures
        clears_in_bounds(s.opened()),
        clears_in_bounds(s.emitted(cmd)),
        clears_in_bounds(s.quad_closed(start)),
{
    assert forall|k: int| 0 <= k < s.opened().passes.len() implies (
    #[trigger] s.opened().passes[k]).ranges_in_bounds() by {
        if k < s.passes.len() {
            assert(s.opened().passes[k] == s.passes[k]);
        }
    }
    assert forall|k: int| 0 <= k < s.emitted(cmd).passes.len() implies (
    #[trigger] s.emitted(cmd).passes[k]).ranges_in_bounds() by {
        assert(s.opened().passes[k].ranges_in_bounds());
        if k < s.emitted(cmd).passes.len() - 1 {
            assert(s.emitted(cmd).passes[k] == s.opened().passes[k]);
        } else {
            let p = s.emitted(cmd).passes[k];
            let q = s.opened().passes[k];
            assert(p.quad_ranges == q.quad_ranges);
            assert forall|m: int| 0 <= m < p.quad_ranges.len() implies (
            #[trigger] p.quad_ranges[m]).0 < p.quad_ranges[m].1 <= p.commands.len() by {
                assert(q.quad_ranges[m].0 < q.quad_ranges[m].1 <= q.commands.len());
            }
        }
    }
    let t = s.quad_closed(start);
    assert forall|k: int| 0 <= k < t.passes.len() implies (
    #[trigger] t.passes[k]).ranges_in_bounds() by {
        assert(s.passes[k].ranges_in_bounds());
        let p = t.passes[k];
        let q = s.passes[k];
        assert forall|m: int| 0 <= m < p.quad_ranges.len() implies (
        #[trigger] p.quad_ranges[m]).0 < p.quad_ranges[m].1 <= p.commands.len() by {
            if m < q.quad_ranges.len() {
                assert(q.quad_ranges[m].0 < q.quad_ranges[m].1 <= q.commands.len());
            }
        }
    }
}

/// Painted clears of two passes that are joined lie within the commands of the one pass
/// that comes of them.
pub proof fn painted_clears_stay_in_bounds_when_joined(a: PassView, b: PassView)
    requires
        a.ranges_in_bounds(),
        b.ranges_in_bounds(),
        a.commands.len() + 3 + b.commands.len() <= usize::MAX,
    ensures
        a.joined(b).ranges_in_bounds(),
{
    let j = a.joined(b);
    let n = a.quad_ranges.len();
    assert forall|k: int| 0 <= k < j.quad_ranges.len() implies (#[trigger] j.quad_ranges[k]).0
        < j.quad_ranges[k].1 <= j.commands.len() by {
        if k < n {
            assert(a.quad_ranges[k].0 < a.quad_ranges[k].1 <= a.commands.len());
        } else {
            let r = b.quad_ranges[k - n];
            assert(r.0 < r.1 <= b.commands.len());
            let offset = a.commands.len() + 3;
            assert(j.quad_ranges[k] == ((r.0 + offset) as usize, (r.1 + offset) as usize));
        }
    }
}

/// Whether the passes that upload texels are among the passes there are.
pub open spec fn uploads_fit(s: PassStateView) -> bool {
    s.upload_pass_end <= s.passes.len()
}

/// A frame starts without uploads, and whatever is recorded in it leaves room for another
/// upload: only passes that are merged or dropped at its end take that away.
pub proof fn uploads_fit_while_a_frame_is_recorded(
    s: PassStateView,
    reset: FrameReset,
    cmd: Command,
    start: usize,
    rect: Rect,
    resolve: DepthResolve,
    target: UploadPassTarget,
    commands: Seq<Command>,
)
    ensures
        uploads_fit(s.frame_started(reset)),
        uploads_fit(s) ==> uploads_fit(s.opened()) && uploads_fit(s.ended()) && uploads_fit(
            s.flushed(),
        ) && uploads_fit(s.emitted(cmd)) && uploads_fit(s.quad_closed(start)) && uploads_fit(
            s.viewport_emitted(rect),
        ) && uploads_fit(s.depth_resolved(resolve)),
        uploads_fit(s) && s.passes.len() < usize::MAX ==> uploads_fit(
            s.upload_pushed(target, commands),
        ),
{
}

/// An upload runs behind the uploads before it and before everything else, and changes no
/// other pass.
pub proof fn uploads_run_first(
    s: PassStateView,
    target: UploadPassTarget,
    commands: Seq<Command>,
    k: int,
)
    requires
        uploads_fit(s),
        0 <= k < s.passes.len(),
    ensures
        s.upload_pushed(target, commands).passes.len() == s.passes.len() + 1,
        s.upload_pushed(target, commands).passes[s.upload_pass_end as int]
            == PassStateView::upload_pass(target, commands),
        s.upload_pushed(target, commands).passes[if k < s.upload_pass_end {
            k
        } else {
            k + 1
        }] == s.passes[k],
{
}

// -- the binding cache ----------------------------------------------------------------------

/// A cache and the record of what was emitted agree at the start, and keep agreeing as long
/// as every value that is emitted is noted in the cache first.
pub proof fn gated_binds_stay_in_sync(
    cache: LastBoundView,
    shadow: ShadowView,
    slot: u32,
    handle: u64,
    offset: u32,
    generation: u64,
    mode: CullMode,
    bias: (u32, u32),
    rect: (u32, u32, u32, u32),
)
    requires
        shadow.agrees_with(cache),
        slot < 16,
        cache.vertex_buffers.len() == 16,
        shadow.vertex_buffers.len() == 16,
        cache.fragment_textures.len() == 16,
        cache.fragment_samplers.len() == 16,
    ensures
        ShadowView::fresh().agrees_with(LastBoundView::fresh()),
        shadow.recorded(
            (Command {
                cmd: CommandType::SetRenderPipelineState,
                param_a: 0,
                param_b: handle,
                param_c: 0,
                param_d: 0,
            }),
        ).agrees_with((LastBoundView { pipeline: handle, ..cache })),
        shadow.recorded(
            (Command {
                cmd: CommandType::SetDepthStencilState,
                param_a: 0,
                param_b: handle,
                param_c: 0,
                param_d: 0,
            }),
        ).agrees_with((LastBoundView { depth_stencil: handle, ..cache })),
        shadow.recorded(
            (Command {
                cmd: CommandType::SetCullMode,
                param_a: mode.code_spec(),
                param_b: 0,
                param_c: 0,
                param_d: 0,
            }),
        ).agrees_with((LastBoundView { cull_mode: Some(mode), ..cache })),
        shadow.recorded(
            (Command {
                cmd: CommandType::SetFragmentTexture,
                param_a: slot,
                param_b: handle,
                param_c: 0,
                param_d: 0,
            }),
        ).agrees_with(
            (LastBoundView {
                fragment_textures: cache.fragment_textures.update(slot as int, handle),
                ..cache
            }),
        ),
        shadow.recorded(
            (Command {
                cmd: CommandType::SetVertexBuffer,
                param_a: slot,
                param_b: handle,
                param_c: offset as u64,
                param_d: 0,
            }),
        ).agrees_with(
            (LastBoundView {
                vertex_buffers: cache.vertex_buffers.update(
                    slot as int,
                    (handle, offset, generation),
                ),
                ..cache
            }),
        ),
        shadow.recorded(Command::set_depth_bias_spec(bias.0, bias.1)).agrees_with(
            (LastBoundView { depth_bias_bits: bias, ..cache }),
        ),
        shadow.recorded(
            Command::set_scissor_rect_spec(rect.0, rect.1, rect.2, rect.3),
        ).agrees_with((LastBoundView { scissor_rect: Some(rect), ..cache })),
{
}

} // verus!
