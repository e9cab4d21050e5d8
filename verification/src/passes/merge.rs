//! Merging draws of a later pass into an earlier one on the same targets.

use super::model::{in_bounds, shifted_ranges, PassStateView, PassView};
use super::{ColorLoad, DepthLoad, Pass, PassState, StencilLoad};
use crate::fx::{map_get, set_extend, set_insert, set_is_disjoint};
use crate::metal::{Command, CommandType, F32_ONE};
use rustc_hash::{FxHashMap, FxHashSet};
use vstd::prelude::*;

verus! {

/// How far back a pass looks for one to join.
pub const MERGE_LOOKBACK: usize = 16;

/// What a pass reads and writes, and whether it may move at all.
pub struct Access {
    reads: FxHashSet<u64>,
    writes: FxHashSet<u64>,
    movable: bool,
}

/// What an [`Access`] says.
#[verifier::ext_equal]
pub struct AccessView {
    pub reads: Set<u64>,
    pub writes: Set<u64>,
    pub movable: bool,
}

impl View for Access {
    type V = AccessView;

    closed spec fn view(&self) -> AccessView {
        AccessView { reads: self.reads@, writes: self.writes@, movable: self.movable }
    }
}

impl AccessView {
    /// Whether two passes can run in either order.
    pub open spec fn independent_of(self, other: AccessView) -> bool {
        &&& self.movable
        &&& other.movable
        &&& self.writes.disjoint(other.writes)
        &&& self.reads.disjoint(other.writes)
        &&& self.writes.disjoint(other.reads)
    }
}

/// The texture behind a handle: the one an sRGB view was made of, or the handle itself.
pub open spec fn base_of(handle: u64, twin_to_base: Map<u64, u64>) -> u64 {
    if twin_to_base.contains_key(handle) {
        twin_to_base[handle]
    } else {
        handle
    }
}

/// Whether a command binds a texture for sampling.
pub open spec fn binds_texture(c: Command) -> bool {
    (c.cmd == CommandType::SetFragmentTexture || c.cmd == CommandType::SetVertexTexture) && c.param_b
        != 0
}

/// Whether a command pins its pass in place.
pub open spec fn pins_pass(c: Command) -> bool {
    c.cmd == CommandType::SetVisibilityResultMode || c.cmd == CommandType::Unknown
}

impl PassView {
    /// The textures that commands of the pass bind.
    pub open spec fn bound_textures(self, twin_to_base: Map<u64, u64>) -> Set<u64> {
        Set::new(
            |t: u64|
                exists|i: int|
                    0 <= i < self.commands.len() && binds_texture(#[trigger] self.commands[i])
                        && base_of(self.commands[i].param_b, twin_to_base) == t,
        )
    }

    /// Render target 0 and the depth texture.
    pub open spec fn written_textures(self) -> Set<u64> {
        Set::new(|t: u64| t != 0 && (t == self.color.texture || t == self.depth_texture))
    }

    /// Whether the pass has one plain colour target at most, and nothing that pins it.
    pub open spec fn is_plain(self) -> bool {
        &&& self.leading_blits.len() == 0
        &&& !self.has_counting_visibility
        &&& forall|k: int| 0 <= k < 3 ==> !(#[trigger] self.extra[k]).is_bound_spec()
        &&& self.color.msaa_texture == 0
        &&& self.color.resolve_texture == 0
        &&& self.depth_resolve_texture == 0
        &&& forall|i: int| 0 <= i < self.commands.len() ==> !pins_pass(#[trigger] self.commands[i])
    }

    /// What the pass reads and writes. It may move when it is plain and samples none of its
    /// own targets.
    pub open spec fn access(self, twin_to_base: Map<u64, u64>) -> AccessView {
        AccessView {
            reads: self.bound_textures(twin_to_base),
            writes: self.written_textures(),
            movable: self.is_plain() && self.bound_textures(twin_to_base).disjoint(
                self.written_textures(),
            ),
        }
    }

    /// Whether the draws of `next` can follow those of this pass: the same targets, and
    /// `next` loads what it draws onto.
    pub open spec fn compatible(self, next: PassView) -> bool {
        &&& self.color.texture == next.color.texture
        &&& self.color.srgb_texture == next.color.srgb_texture
        &&& self.color.subresource == next.color.subresource
        &&& self.color.size == next.color.size
        &&& self.color.format == next.color.format
        &&& self.depth_texture == next.depth_texture
        &&& self.depth_level == next.depth_level
        &&& self.depth_is_sampleable == next.depth_is_sampleable
        &&& self.viewport == next.viewport
        &&& next.color.texture == 0 || next.color.load == ColorLoad::Load
        &&& next.depth_texture == 0 || (next.depth_load == DepthLoad::Load && next.stencil_load
            == StencilLoad::Load)
    }

    /// The state a fresh pass starts with, set again by commands.
    pub open spec fn fresh_state() -> Seq<Command> {
        seq![
            Command::set_blend_color_spec(F32_ONE, F32_ONE, F32_ONE, F32_ONE),
            Command::set_depth_bias_spec(0, 0),
            Command::set_stencil_reference_spec(0),
        ]
    }

    /// This pass with the commands of `next` behind its own.
    pub open spec fn joined(self, next: PassView) -> PassView {
        let offset = self.commands.len() + 3;
        PassView {
            commands: self.commands + Self::fresh_state() + next.commands,
            quad_ranges: self.quad_ranges + shifted_ranges(next.quad_ranges, offset),
            color_writes_observed: self.color_writes_observed || next.color_writes_observed,
            ..self
        }
    }

    /// Every painted clear lies within the commands.
    pub open spec fn ranges_in_bounds(self) -> bool {
        in_bounds(self.quad_ranges, self.commands.len())
    }
}

/// The pass that pass `index` joins: the nearest compatible one from `e` backwards, as far
/// as everything in between is independent of it.
pub open spec fn join_target(
    ps: Seq<PassView>,
    index: int,
    e: int,
    twin_to_base: Map<u64, u64>,
) -> Option<int>
    decreases e + 1,
{
    if e < 0 || e < index - MERGE_LOOKBACK {
        None
    } else if ps[e].access(twin_to_base).movable && ps[e].compatible(ps[index]) {
        Some(e)
    } else if !ps[index].access(twin_to_base).independent_of(ps[e].access(twin_to_base)) {
        None
    } else {
        join_target(ps, index, e - 1, twin_to_base)
    }
}

/// The passes merged from pass `index` on.
pub open spec fn merged(ps: Seq<PassView>, index: int, twin_to_base: Map<u64, u64>) -> Seq<PassView>
    decreases ps.len() - index,
{
    if index < 0 || index >= ps.len() {
        ps
    } else {
        let target = if ps[index].access(twin_to_base).movable {
            join_target(ps, index, index - 1, twin_to_base)
        } else {
            None
        };
        match target {
            Some(t) => if 0 <= t < index {
                merged(ps.update(t, ps[t].joined(ps[index])).remove(index), index, twin_to_base)
            } else {
                ps
            },
            None => merged(ps, index + 1, twin_to_base),
        }
    }
}

/// A pass only joins one that it is compatible with, and only across passes that can run in
/// either order with it.
pub proof fn join_crosses_only_independent_passes(
    ps: Seq<PassView>,
    index: int,
    e: int,
    twin_to_base: Map<u64, u64>,
)
    requires
        e < index,
    ensures
        join_target(ps, index, e, twin_to_base) matches Some(t) ==> {
            &&& 0 <= t <= e
            &&& t >= index - MERGE_LOOKBACK
            &&& ps[t].access(twin_to_base).movable
            &&& ps[t].compatible(ps[index])
            &&& forall|m: int|
                t < m <= e ==> ps[index].access(twin_to_base).independent_of(
                    (#[trigger] ps[m]).access(twin_to_base),
                )
        },
    decreases e + 1,
{
    if e >= 0 && e >= index - MERGE_LOOKBACK {
        join_crosses_only_independent_passes(ps, index, e - 1, twin_to_base);
    }
}

/// Joining two passes that may move, and are compatible, gives one that may move; it reads
/// what either reads.
pub proof fn joined_access(a: PassView, b: PassView, twin_to_base: Map<u64, u64>)
    requires
        a.access(twin_to_base).movable,
        b.access(twin_to_base).movable,
        a.compatible(b),
    ensures
        a.joined(b).access(twin_to_base) == (AccessView {
            reads: a.access(twin_to_base).reads.union(b.access(twin_to_base).reads),
            ..a.access(twin_to_base)
        }),
{
    let j = a.joined(b);
    let f = PassView::fresh_state();
    let n = a.commands.len() as int;
    assert(j.commands.len() == n + 3 + b.commands.len());
    assert forall|i: int| 0 <= i < n implies j.commands[i] == a.commands[i] by {}
    assert forall|i: int| 0 <= i < b.commands.len() implies j.commands[n + 3 + i] == b.commands[i] by {}
    assert(j.commands[n] == f[0] && j.commands[n + 1] == f[1] && j.commands[n + 2] == f[2]);
    assert forall|t: u64|
        j.bound_textures(twin_to_base).contains(t) <==> a.bound_textures(twin_to_base).contains(t)
            || b.bound_textures(twin_to_base).contains(t) by {
        if a.bound_textures(twin_to_base).contains(t) {
            let i = choose|i: int|
                0 <= i < a.commands.len() && binds_texture(#[trigger] a.commands[i]) && base_of(
                    a.commands[i].param_b,
                    twin_to_base,
                ) == t;
            assert(binds_texture(j.commands[i]));
        }
        if b.bound_textures(twin_to_base).contains(t) {
            let i = choose|i: int|
                0 <= i < b.commands.len() && binds_texture(#[trigger] b.commands[i]) && base_of(
                    b.commands[i].param_b,
                    twin_to_base,
                ) == t;
            assert(binds_texture(j.commands[n + 3 + i]));
        }
        if j.bound_textures(twin_to_base).contains(t) {
            let i = choose|i: int|
                0 <= i < j.commands.len() && binds_texture(#[trigger] j.commands[i]) && base_of(
                    j.commands[i].param_b,
                    twin_to_base,
                ) == t;
            if i < n {
                assert(binds_texture(a.commands[i]));
            } else if i >= n + 3 {
                assert(binds_texture(b.commands[i - n - 3]));
            }
        }
    }
    assert(j.bound_textures(twin_to_base) =~= a.bound_textures(twin_to_base).union(
        b.bound_textures(twin_to_base),
    ));
    assert(j.written_textures() =~= a.written_textures());
    assert(b.written_textures() =~= a.written_textures());
    assert forall|i: int| 0 <= i < j.commands.len() implies !pins_pass(#[trigger] j.commands[i]) by {
        if i < n {
            assert(!pins_pass(a.commands[i]));
        } else if i >= n + 3 {
            assert(!pins_pass(b.commands[i - n - 3]));
        }
    }
}

impl Access {
    /// What a pass reads and writes.
    pub fn new(pass: &Pass, twin_to_base: &FxHashMap<u64, u64>) -> (r: Access)
        ensures
            r@ == pass@.access(twin_to_base@),
    {
        let mut reads: FxHashSet<u64> = FxHashSet::default();
        let mut writes: FxHashSet<u64> = FxHashSet::default();
        if pass.color.texture != 0 {
            let _ = set_insert(&mut writes, pass.color.texture);
        }
        if pass.depth_texture != 0 {
            let _ = set_insert(&mut writes, pass.depth_texture);
        }
        let ghost p = pass@;
        assert(writes@ =~= p.written_textures());
        assert(p.extra[0] == pass.extra_color[0] && p.extra[1] == pass.extra_color[1] && p.extra[2]
            == pass.extra_color[2]);
        let mut plain: bool = pass.leading_blits.len() == 0 && !pass.has_counting_visibility
            && !pass.extra_color[0].is_bound() && !pass.extra_color[1].is_bound()
            && !pass.extra_color[2].is_bound() && pass.color.msaa_texture == 0
            && pass.color.resolve_texture == 0 && pass.depth_resolve_texture == 0;
        let ghost plain_shape = plain;
        assert(plain_shape == (p.leading_blits.len() == 0 && !p.has_counting_visibility && (forall|
            k: int,
        |
            0 <= k < 3 ==> !(#[trigger] p.extra[k]).is_bound_spec()) && p.color.msaa_texture == 0
            && p.color.resolve_texture == 0 && p.depth_resolve_texture == 0));
        let mut i: usize = 0;
        while i < pass.list.commands.len()
            invariant
                i <= pass.list.commands@.len(),
                p == pass@,
                plain == (plain_shape && forall|j: int|
                    0 <= j < i ==> !pins_pass(#[trigger] p.commands[j])),
                forall|t: u64| #[trigger]
                    reads@.contains(t) <==> exists|j: int|
                        0 <= j < i && binds_texture(#[trigger] p.commands[j]) && base_of(
                            p.commands[j].param_b,
                            twin_to_base@,
                        ) == t,
            decreases pass.list.commands@.len() - i,
        {
            let c: Command = pass.list.commands[i];
            assert(c == p.commands[i as int]);
            let ghost before = reads@;
            if c.cmd == CommandType::SetFragmentTexture || c.cmd == CommandType::SetVertexTexture {
                if c.param_b != 0 {
                    let base: u64 = match map_get(twin_to_base, c.param_b) {
                        Some(b) => b,
                        None => c.param_b,
                    };
                    let _ = set_insert(&mut reads, base);
                }
            } else if c.cmd == CommandType::SetVisibilityResultMode || c.cmd
                == CommandType::Unknown {
                plain = false;
            }
            i += 1;
            proof {
                assert forall|t: u64| #[trigger]
                    reads@.contains(t) <==> exists|j: int|
                        0 <= j < i && binds_texture(#[trigger] p.commands[j]) && base_of(
                            p.commands[j].param_b,
                            twin_to_base@,
                        ) == t by {
                    if before.contains(t) {
                        let j = choose|j: int|
                            0 <= j < i - 1 && binds_texture(#[trigger] p.commands[j]) && base_of(
                                p.commands[j].param_b,
                                twin_to_base@,
                            ) == t;
                        assert(binds_texture(p.commands[j]));
                    }
                    if binds_texture(c) && base_of(c.param_b, twin_to_base@) == t {
                        assert(binds_texture(p.commands[i - 1]));
                    }
                }
            }
        }
        assert(reads@ =~= p.bound_textures(twin_to_base@));
        let movable: bool = plain && set_is_disjoint(&reads, &writes);
        Access { reads, writes, movable }
    }

    /// Whether two passes can run in either order.
    pub fn independent_of(&self, other: &Access) -> (r: bool)
        ensures
            r == self@.independent_of(other@),
    {
        self.movable && other.movable && set_is_disjoint(&self.writes, &other.writes)
            && set_is_disjoint(&self.reads, &other.writes) && set_is_disjoint(
            &self.writes,
            &other.reads,
        )
    }
}

/// Whether the draws of `next` can follow those of `first` in one pass.
pub fn compatible(first: &Pass, next: &Pass) -> (r: bool)
    ensures
        r == first@.compatible(next@),
{
    first.color.texture == next.color.texture && first.color.srgb_texture
        == next.color.srgb_texture && first.color.subresource == next.color.subresource
        && first.color.size.0 == next.color.size.0 && first.color.size.1 == next.color.size.1
        && first.color.format == next.color.format && first.depth_texture == next.depth_texture
        && first.depth_level == next.depth_level && first.depth_is_sampleable
        == next.depth_is_sampleable && first.viewport.0 == next.viewport.0 && first.viewport.1
        == next.viewport.1 && first.viewport.2 == next.viewport.2 && first.viewport.3
        == next.viewport.3 && (next.color.texture == 0 || next.color.load == ColorLoad::Load) && (
    next.depth_texture == 0 || (next.depth_load == DepthLoad::Load && next.stencil_load
        == StencilLoad::Load))
}

impl Pass {
    /// Appends the commands of a later pass.
    fn join(&mut self, next: Pass)
        ensures
            final(self)@ == old(self)@.joined(next@),
    {
        let ghost a = self@;
        let ghost b = next@;
        let mut between: Vec<Command> = Vec::new();
        between.push(Command::set_blend_color(F32_ONE, F32_ONE, F32_ONE, F32_ONE));
        between.push(Command::set_depth_bias(0, 0));
        between.push(Command::set_stencil_reference(0));
        assert(between@ =~= PassView::fresh_state());
        let observed: bool = next.color_writes_observed;
        self.list.join(between, next.list);
        if observed {
            self.color_writes_observed = true;
        }
        assert(self@ =~= a.joined(b));
    }
}

impl PassState {
    /// The pass that pass `index` can join.
    fn find_join_target(&self, index: usize, accesses: &Vec<Access>) -> (r: Option<usize>)
        requires
            index < self@.passes.len(),
            accesses@.len() == self@.passes.len(),
            forall|k: int|
                0 <= k < accesses@.len() ==> (#[trigger] accesses@[k])@ == self@.passes[k].access(
                    self@.twin_to_base,
                ),
        ensures
            (match r {
                Some(t) => Some(t as int),
                None => None,
            }) == join_target(self@.passes, index as int, index - 1, self@.twin_to_base),
    {
        let ghost ps = self@.passes;
        let ghost twins = self@.twin_to_base;
        let lowest: usize = if index > MERGE_LOOKBACK {
            index - MERGE_LOOKBACK
        } else {
            0
        };
        let mut e: usize = index;
        while e > lowest
            invariant
                lowest <= e <= index < ps.len(),
                lowest == (if index > MERGE_LOOKBACK {
                    index - MERGE_LOOKBACK
                } else {
                    0
                }),
                ps == self@.passes,
                twins == self@.twin_to_base,
                accesses@.len() == ps.len(),
                forall|k: int|
                    0 <= k < accesses@.len() ==> (#[trigger] accesses@[k])@ == ps[k].access(twins),
                join_target(ps, index as int, index - 1, twins) == join_target(
                    ps,
                    index as int,
                    e - 1,
                    twins,
                ),
            decreases e,
        {
            e -= 1;
            assert(self.passes@.len() == ps.len());
            assert(accesses@[e as int]@ == ps[e as int].access(twins));
            assert(accesses@[index as int]@ == ps[index as int].access(twins));
            if accesses[e].movable && compatible(&self.passes[e], &self.passes[index]) {
                return Some(e);
            }
            if !accesses[index].independent_of(&accesses[e]) {
                return None;
            }
        }
        None
    }

    /// Merges the draws of later passes into earlier ones on the same targets, across passes
    /// that do not touch what they touch. Each pass keeps the order of its draws.
    pub fn merge_independent_draw_passes(&mut self)
        ensures
            final(self)@ == (PassStateView {
                passes: merged(old(self)@.passes, 1, old(self)@.twin_to_base),
                ..old(self)@
            }),
            final(self).realloc_bytes() == old(self).realloc_bytes(),
    {
        let ghost twins = self@.twin_to_base;
        let mut accesses: Vec<Access> = Vec::new();
        let mut i: usize = 0;
        while i < self.passes.len()
            invariant
                i <= self.passes@.len(),
                accesses@.len() == i,
                twins == self@.twin_to_base,
                forall|k: int|
                    0 <= k < i ==> (#[trigger] accesses@[k])@ == self@.passes[k].access(twins),
            decreases self.passes@.len() - i,
        {
            accesses.push(Access::new(&self.passes[i], &self.twin_to_base));
            i += 1;
        }
        let mut index: usize = 1;
        while index < self.passes.len()
            invariant
                index >= 1,
                twins == old(self)@.twin_to_base,
                self@ == (PassStateView { passes: self@.passes, ..old(self)@ }),
                self.realloc_bytes() == old(self).realloc_bytes(),
                merged(old(self)@.passes, 1, twins) == merged(self@.passes, index as int, twins),
                accesses@.len() == self@.passes.len(),
                forall|k: int|
                    0 <= k < accesses@.len() ==> (#[trigger] accesses@[k])@
                        == self@.passes[k].access(twins),
            decreases self.passes@.len() - index,
        {
            let ghost before = self@;
            let ghost accs = accesses@;
            assert(before.passes.len() == self.passes@.len());
            assert(accs[index as int]@ == before.passes[index as int].access(twins));
            let target: Option<usize> = if accesses[index].movable {
                self.find_join_target(index, &accesses)
            } else {
                None
            };
            proof {
                join_crosses_only_independent_passes(
                    before.passes,
                    index as int,
                    index - 1,
                    twins,
                );
            }
            match target {
                Some(t) => {
                    let next: Pass = self.passes.remove(index);
                    let next_access: Access = accesses.remove(index);
                    let ghost p = before.passes[t as int];
                    let ghost q = before.passes[index as int];
                    proof {
                        assert(next@ == q);
                        joined_access(p, q, twins);
                        assert(accs[t as int]@ == p.access(twins));
                        assert(self@.passes =~= before.passes.remove(index as int));
                    }
                    self.passes[t].join(next);
                    set_extend(&mut accesses[t].reads, next_access.reads);
                    proof {
                        let now = before.passes.update(t as int, p.joined(q)).remove(index as int);
                        assert(self@.passes =~= now);
                        assert(self.passes@[t as int]@ == p.joined(q));
                        assert forall|k: int| 0 <= k < accesses@.len() implies (
                        #[trigger] accesses@[k])@ == self@.passes[k].access(twins) by {
                            if k == t {
                                assert(accesses@[k]@ =~= p.joined(q).access(twins));
                            } else if k < index {
                                assert(accesses@[k] == accs[k]);
                            } else {
                                assert(accesses@[k] == accs[k + 1]);
                                assert(accs[k + 1]@ == before.passes[k + 1].access(twins));
                            }
                        }
                    }
                },
                None => {
                    index += 1;
                },
            }
        }
    }
}

} // verus!
