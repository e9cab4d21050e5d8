//! The store actions: what of a frame has to reach memory.
//!
//! The rules look at every use of an attachment in one order: from the last pass to the
//! first, and within a pass from colour slot 0 on.

use super::attachment::PassColorAttachment;
use super::model::{PassStateView, PassView};
use super::{ColorLoad, PassState, StoreAction};
use crate::fx::{set_contains, set_insert, sub_insert, sub_map_get, sub_map_insert};
use rustc_hash::{FxHashMap, FxHashSet};
use vstd::prelude::*;

verus! {

/// Whether use `(j, s)`, a pass and a colour slot, comes before `(i, slot)` in that order.
pub open spec fn walked_before(j: int, s: int, i: int, slot: int) -> bool {
    j > i || (j == i && s < slot)
}

/// Whether slot `s` of pass `j` attaches subresource `key`.
pub open spec fn uses(ps: Seq<PassView>, j: int, s: int, key: (u64, u32)) -> bool {
    0 <= j < ps.len() && 0 <= s < 4 && ps[j].color_at(s).is_bound_spec() && (
    ps[j].color_at(s).texture,
    ps[j].color_at(s).subresource,
    ) == key
}

/// Whether slot `s` of pass `j` draws into the multisampled companion of subresource `key`.
pub open spec fn uses_msaa(ps: Seq<PassView>, j: int, s: int, key: (u64, u32)) -> bool {
    0 <= j < ps.len() && 0 <= s < 4 && ps[j].color_at(s).msaa_texture != 0 && (
    ps[j].color_at(s).texture,
    ps[j].color_at(s).subresource,
    ) == key
}

/// Whether `(j, s)` is the use of `key` that comes last before `(i, slot)`: in time, the
/// next use.
pub open spec fn is_next_use(
    ps: Seq<PassView>,
    key: (u64, u32),
    i: int,
    slot: int,
    j: int,
    s: int,
) -> bool {
    &&& uses(ps, j, s, key)
    &&& walked_before(j, s, i, slot)
    &&& forall|j2: int, s2: int|
        #[trigger] uses(ps, j2, s2, key) && walked_before(j2, s2, i, slot) ==> (j2 == j && s2 == s)
            || walked_before(j2, s2, j, s)
}

/// Whether the attachment of `(i, slot)` is cleared by its next user.
pub open spec fn next_use_clears(ps: Seq<PassView>, i: int, slot: int) -> bool {
    let a = ps[i].color_at(slot);
    exists|j: int, s: int|
        #[trigger] is_next_use(ps, (a.texture, a.subresource), i, slot, j, s) && ps[j].color_at(
            s,
        ).load is Clear
}

/// Whether nothing uses the attachment of `(i, slot)` after it.
pub open spec fn is_last_use(ps: Seq<PassView>, i: int, slot: int) -> bool {
    let a = ps[i].color_at(slot);
    forall|j: int, s: int|
        #[trigger] uses(ps, j, s, (a.texture, a.subresource)) ==> !walked_before(j, s, i, slot)
}

/// Whether nothing draws into the companion of `(i, slot)` after it.
pub open spec fn is_last_msaa_use(ps: Seq<PassView>, i: int, slot: int) -> bool {
    let a = ps[i].color_at(slot);
    forall|j: int, s: int|
        #[trigger] uses_msaa(ps, j, s, (a.texture, a.subresource)) ==> !walked_before(
            j,
            s,
            i,
            slot,
        )
}

/// Whether pass `i` is the last to use its depth texture.
pub open spec fn is_last_depth_use(ps: Seq<PassView>, i: int) -> bool {
    ps[i].depth_texture != 0 && forall|j: int|
        i < j < ps.len() ==> (#[trigger] ps[j]).depth_texture != ps[i].depth_texture
}

/// Rule B: depth that is used for the last time, and that nothing can sample, is not stored.
pub open spec fn depth_stores_settled(ps: Seq<PassView>, sampled: Set<u64>) -> Seq<PassView> {
    Seq::new(
        ps.len(),
        |i: int|
            if is_last_depth_use(ps, i) && !ps[i].depth_is_sampleable && !sampled.contains(
                ps[i].depth_texture,
            ) {
                PassView { depth_store: StoreAction::DontCare, ..ps[i] }
            } else {
                ps[i]
            },
    )
}

/// Every attachment changed by a rule, which knows its pass and slot.
pub open spec fn map_uses(
    ps: Seq<PassView>,
    rule: spec_fn(int, int, PassColorAttachment) -> PassColorAttachment,
) -> Seq<PassView> {
    Seq::new(
        ps.len(),
        |j: int| ps[j].map_colors(|s: int, a: PassColorAttachment| rule(j, s, a)),
    )
}

/// Rule C on one attachment.
pub open spec fn next_clear_rule(ps: Seq<PassView>, sampled: Set<u64>) -> spec_fn(
    int,
    int,
    PassColorAttachment,
) -> PassColorAttachment {
    |i: int, slot: int, a: PassColorAttachment|
        if a.is_bound_spec() && !sampled.contains(a.texture) && next_use_clears(ps, i, slot) {
            PassColorAttachment { store: StoreAction::DontCare, ..a }
        } else {
            a
        }
}

/// Rule D on one attachment.
pub open spec fn last_use_rule(ps: Seq<PassView>, sampled: Set<u64>, backbuffer: u64) -> spec_fn(
    int,
    int,
    PassColorAttachment,
) -> PassColorAttachment {
    |i: int, slot: int, a: PassColorAttachment|
        if a.is_bound_spec() && a.texture != backbuffer && !sampled.contains(a.texture)
            && is_last_use(ps, i, slot) {
            PassColorAttachment { store: StoreAction::DontCare, ..a }
        } else {
            a
        }
}

/// The resolve of one attachment: the last pass into a multisampled companion takes it.
pub open spec fn resolve_rule(ps: Seq<PassView>) -> spec_fn(
    int,
    int,
    PassColorAttachment,
) -> PassColorAttachment {
    |i: int, slot: int, a: PassColorAttachment|
        if a.msaa_texture != 0 && is_last_msaa_use(ps, i, slot) {
            PassColorAttachment { resolve_texture: a.resolve_view_spec(), ..a }
        } else {
            a
        }
}

impl PassStateView {
    /// The frame with its store actions and resolves settled. When the frame goes on after a
    /// flush, nothing has been used for the last time.
    pub open spec fn stores_settled(self, frame_continues: bool) -> PassStateView {
        let b = if frame_continues {
            self.passes
        } else {
            depth_stores_settled(self.passes, self.ever_sampled)
        };
        let c = map_uses(b, next_clear_rule(b, self.ever_sampled));
        let d = if frame_continues {
            c
        } else {
            map_uses(c, last_use_rule(c, self.ever_sampled, self.backbuffer))
        };
        PassStateView { passes: map_uses(d, resolve_rule(d)), ..self }
    }

    /// The most recent pass and first slot in it that draws into the companion of `texture`.
    pub open spec fn msaa_writer(ps: Seq<PassView>, texture: u64) -> Option<(int, int)>
        decreases ps.len(),
    {
        if ps.len() == 0 {
            None
        } else {
            let i = ps.len() - 1;
            if draws_msaa(ps[i].color_at(0), texture) {
                Some((i, 0int))
            } else if draws_msaa(ps[i].color_at(1), texture) {
                Some((i, 1int))
            } else if draws_msaa(ps[i].color_at(2), texture) {
                Some((i, 2int))
            } else if draws_msaa(ps[i].color_at(3), texture) {
                Some((i, 3int))
            } else {
                Self::msaa_writer(ps.drop_last(), texture)
            }
        }
    }

    /// A multisampled texture resolved by the pass that last drew into its companion.
    pub open spec fn msaa_read(self, texture: u64) -> PassStateView {
        if texture == 0 {
            self
        } else {
            match Self::msaa_writer(self.passes, texture) {
                Some((i, slot)) => {
                    let a = self.passes[i].color_at(slot);
                    PassStateView {
                        passes: self.passes.update(
                            i,
                            self.passes[i].with_color_at(
                                slot,
                                PassColorAttachment {
                                    resolve_texture: a.resolve_view_spec(),
                                    ..a
                                },
                            ),
                        ),
                        ..self
                    }
                },
                None => self,
            }
        }
    }
}

/// Whether an attachment draws into the companion of `texture`.
pub open spec fn draws_msaa(a: PassColorAttachment, texture: u64) -> bool {
    a.texture == texture && a.msaa_texture != 0
}

/// The uses before `(i, slot)` changed by a rule, the others not yet.
spec fn mapped_upto(
    ps: Seq<PassView>,
    rule: spec_fn(int, int, PassColorAttachment) -> PassColorAttachment,
    i: int,
    slot: int,
) -> Seq<PassView> {
    map_uses(
        ps,
        |j: int, s: int, a: PassColorAttachment|
            if walked_before(j, s, i, slot) {
                rule(j, s, a)
            } else {
                a
            },
    )
}

spec fn all_shaped(ps: Seq<PassView>) -> bool {
    forall|j: int| 0 <= j < ps.len() ==> (#[trigger] ps[j]).extra.len() == 3
}

proof fn lemma_mapped_step(
    ps: Seq<PassView>,
    rule: spec_fn(int, int, PassColorAttachment) -> PassColorAttachment,
    i: int,
    slot: int,
)
    requires
        all_shaped(ps),
        0 <= i < ps.len(),
        0 <= slot < 4,
    ensures
        mapped_upto(ps, rule, i, slot)[i].color_at(slot) == ps[i].color_at(slot),
        mapped_upto(ps, rule, i, slot + 1) == mapped_upto(ps, rule, i, slot).update(
            i,
            mapped_upto(ps, rule, i, slot)[i].with_color_at(
                slot,
                rule(i, slot, ps[i].color_at(slot)),
            ),
        ),
{
    let a = mapped_upto(ps, rule, i, slot);
    let b = mapped_upto(ps, rule, i, slot + 1);
    let w = a[i].with_color_at(slot, rule(i, slot, ps[i].color_at(slot)));
    assert(b[i].extra =~= w.extra);
    assert(b[i] =~= w);
    assert forall|j: int| 0 <= j < ps.len() && j != i implies b[j] == a[j] by {
        assert(b[j].extra =~= a[j].extra);
        assert(b[j] =~= a[j]);
    }
    assert(b =~= a.update(i, w));
}

proof fn lemma_mapped_row(
    ps: Seq<PassView>,
    rule: spec_fn(int, int, PassColorAttachment) -> PassColorAttachment,
    i: int,
)
    requires
        all_shaped(ps),
    ensures
        mapped_upto(ps, rule, i, 0) == mapped_upto(ps, rule, i + 1, 4),
{
    let a = mapped_upto(ps, rule, i, 0);
    let b = mapped_upto(ps, rule, i + 1, 4);
    assert forall|j: int| 0 <= j < ps.len() implies a[j] == b[j] by {
        assert(a[j].extra =~= b[j].extra);
        assert(a[j] =~= b[j]);
    }
    assert(a =~= b);
}

proof fn lemma_mapped_ends(
    ps: Seq<PassView>,
    rule: spec_fn(int, int, PassColorAttachment) -> PassColorAttachment,
)
    requires
        all_shaped(ps),
    ensures
        mapped_upto(ps, rule, ps.len() as int, 0) == ps,
        mapped_upto(ps, rule, 0, 4) == map_uses(ps, rule),
        mapped_upto(ps, rule, -1, 0) == map_uses(ps, rule),
{
    let a = mapped_upto(ps, rule, ps.len() as int, 0);
    assert forall|j: int| 0 <= j < ps.len() implies a[j] == ps[j] by {
        assert(a[j].extra =~= ps[j].extra);
        assert(a[j] =~= ps[j]);
    }
    assert(a =~= ps);
    let b = mapped_upto(ps, rule, 0, 4);
    let c = mapped_upto(ps, rule, -1, 0);
    let m = map_uses(ps, rule);
    assert forall|j: int| 0 <= j < ps.len() implies b[j] == m[j] && c[j] == m[j] by {
        assert(b[j].extra =~= m[j].extra);
        assert(b[j] =~= m[j]);
        assert(c[j].extra =~= m[j].extra);
        assert(c[j] =~= m[j]);
    }
    assert(b =~= m);
    assert(c =~= m);
}

impl PassState {
    proof fn lemma_all_shaped(&self)
        ensures
            all_shaped(self@.passes),
    {
        assert forall|j: int| 0 <= j < self@.passes.len() implies (#[trigger] self@.passes[j]).extra.len()
            == 3 by {
            assert(self@.passes[j] == self.passes@[j]@);
        }
    }

    /// Replaces the attachment in one colour slot of one pass.
    fn set_color_at(&mut self, i: usize, slot: usize, a: PassColorAttachment)
        requires
            i < old(self)@.passes.len(),
            slot < 4,
        ensures
            final(self)@ == (PassStateView {
                passes: old(self)@.passes.update(
                    i as int,
                    old(self)@.passes[i as int].with_color_at(slot as int, a),
                ),
                ..old(self)@
            }),
            final(self).realloc_bytes() == old(self).realloc_bytes(),
    {
        if slot == 0 {
            self.passes[i].color = a;
        } else {
            self.passes[i].extra_color[slot - 1] = a;
        }
        assert(self@.passes =~= old(self)@.passes.update(
            i as int,
            old(self)@.passes[i as int].with_color_at(slot as int, a),
        ));
    }

    fn settle_depth_stores(&mut self)
        ensures
            final(self)@ == (PassStateView {
                passes: depth_stores_settled(old(self)@.passes, old(self)@.ever_sampled),
                ..old(self)@
            }),
            final(self).realloc_bytes() == old(self).realloc_bytes(),
    {
        let ghost ps = self@.passes;
        let ghost want = depth_stores_settled(ps, self@.ever_sampled);
        let mut handled: FxHashSet<u64> = FxHashSet::default();
        let mut i: usize = self.passes.len();
        assert(self@.passes =~= ps.take(i as int) + want.skip(i as int));
        while i > 0
            invariant
                i <= ps.len(),
                ps == old(self)@.passes,
                want == depth_stores_settled(ps, old(self)@.ever_sampled),
                self@ == (PassStateView {
                    passes: ps.take(i as int) + want.skip(i as int),
                    ..old(self)@
                }),
                self.realloc_bytes() == old(self).realloc_bytes(),
                forall|t: u64|
                    #[trigger] handled@.contains(t) <==> t != 0 && exists|j: int|
                        i <= j < ps.len() && (#[trigger] ps[j]).depth_texture == t,
            decreases i,
        {
            i -= 1;
            let ghost before = self@;
            assert(before.passes.len() == ps.len());
            assert(before.passes[i as int] == ps[i as int]);
            let d: u64 = self.passes[i].depth_texture;
            if d != 0 {
                let ghost seen = handled@;
                let first: bool = set_insert(&mut handled, d);
                assert(first == is_last_depth_use(ps, i as int)) by {
                    if seen.contains(d) {
                        let j = choose|j: int|
                            i + 1 <= j < ps.len() && (#[trigger] ps[j]).depth_texture == d;
                        assert(ps[j].depth_texture == d);
                    } else {
                        assert forall|j: int| i < j < ps.len() implies (#[trigger] ps[j]).depth_texture
                            != d by {
                            assert(!seen.contains(d));
                        }
                    }
                }
                if first && !self.passes[i].depth_is_sampleable && !set_contains(
                    &self.ever_sampled,
                    d,
                ) {
                    self.passes[i].depth_store = StoreAction::DontCare;
                }
            }
            proof {
                assert(ps[i as int].depth_texture == d);
                assert(self@.passes =~= before.passes.update(i as int, want[i as int]));
                assert(self@.passes =~= ps.take(i as int) + want.skip(i as int));
            }
        }
        assert(self@.passes =~= want);
    }

    fn settle_next_clears(&mut self)
        ensures
            final(self)@ == (PassStateView {
                passes: map_uses(
                    old(self)@.passes,
                    next_clear_rule(old(self)@.passes, old(self)@.ever_sampled),
                ),
                ..old(self)@
            }),
            final(self).realloc_bytes() == old(self).realloc_bytes(),
    {
        let ghost ps = self@.passes;
        let ghost rule = next_clear_rule(ps, self@.ever_sampled);
        let mut next: FxHashMap<(u64, u32), (usize, usize)> = FxHashMap::default();
        let mut i: usize = self.passes.len();
        proof {
            self.lemma_all_shaped();
            lemma_mapped_ends(ps, rule);
            lemma_rows_from_end(ps, rule);
        }
        while i > 0
            invariant
                i <= ps.len(),
                ps == old(self)@.passes,
                rule == next_clear_rule(ps, old(self)@.ever_sampled),
                all_shaped(ps),
                self@ == (PassStateView {
                    passes: mapped_upto(ps, rule, i - 1, 0),
                    ..old(self)@
                }),
                self.realloc_bytes() == old(self).realloc_bytes(),
                forall|k: (u64, u32)| #[trigger]
                    next@.contains_key(k) ==> is_next_use(
                        ps,
                        k,
                        i - 1,
                        0,
                        next@[k].0 as int,
                        next@[k].1 as int,
                    ),
                forall|j: int, s: int, k: (u64, u32)| #[trigger]
                    uses(ps, j, s, k) && walked_before(j, s, i - 1, 0) ==> next@.contains_key(k),
            decreases i,
        {
            i -= 1;
            let mut slot: usize = 0;
            while slot < 4
                invariant
                    i < ps.len(),
                    slot <= 4,
                    ps == old(self)@.passes,
                    rule == next_clear_rule(ps, old(self)@.ever_sampled),
                    all_shaped(ps),
                    self@ == (PassStateView {
                        passes: mapped_upto(ps, rule, i as int, slot as int),
                        ..old(self)@
                    }),
                    self.realloc_bytes() == old(self).realloc_bytes(),
                    forall|k: (u64, u32)| #[trigger]
                        next@.contains_key(k) ==> is_next_use(
                            ps,
                            k,
                            i as int,
                            slot as int,
                            next@[k].0 as int,
                            next@[k].1 as int,
                        ),
                    forall|j: int, s: int, k: (u64, u32)| #[trigger]
                        uses(ps, j, s, k) && walked_before(j, s, i as int, slot as int)
                            ==> next@.contains_key(k),
                decreases 4 - slot,
            {
                proof {
                    lemma_mapped_step(ps, rule, i as int, slot as int);
                }
                assert(self@.passes.len() == ps.len());
                let a: PassColorAttachment = self.passes[i].color_at(slot);
                assert(a == ps[i as int].color_at(slot as int));
                let mut changed: PassColorAttachment = a;
                if a.is_bound() {
                    let key: (u64, u32) = (a.texture, a.subresource);
                    assert(uses(ps, i as int, slot as int, key));
                    match sub_map_get(&next, key) {
                        Some(n) => {
                            let ghost (nj, ns) = (n.0 as int, n.1 as int);
                            assert(is_next_use(ps, key, i as int, slot as int, nj, ns));
                            let load: ColorLoad = self.passes[n.0].color_load_of(n.1);
                            proof {
                                assert(self@.passes[nj].color_at(ns).load == ps[nj].color_at(
                                    ns,
                                ).load);
                                lemma_next_use_unique(ps, i as int, slot as int, nj, ns);
                            }
                            let clears: bool = match load {
                                ColorLoad::Clear { r: _, g: _, b: _, a: _ } => true,
                                _ => false,
                            };
                            if clears && !set_contains(&self.ever_sampled, a.texture) {
                                changed.store = StoreAction::DontCare;
                            }
                        },
                        None => {
                            assert(!next_use_clears(ps, i as int, slot as int)) by {
                                if next_use_clears(ps, i as int, slot as int) {
                                    let (j, s) = choose|j: int, s: int|
                                        #[trigger] is_next_use(
                                            ps,
                                            key,
                                            i as int,
                                            slot as int,
                                            j,
                                            s,
                                        ) && ps[j].color_at(s).load is Clear;
                                    assert(uses(ps, j, s, key));
                                }
                            }
                        },
                    }
                    sub_map_insert(&mut next, key, (i, slot));
                }
                assert(changed == rule(i as int, slot as int, a));
                self.set_color_at(i, slot, changed);
                slot += 1;
            }
            proof {
                lemma_mapped_row(ps, rule, i - 1);
            }
        }
        proof {
            lemma_mapped_ends(ps, rule);
        }
    }

    fn settle_last_uses(&mut self)
        ensures
            final(self)@ == (PassStateView {
                passes: map_uses(
                    old(self)@.passes,
                    last_use_rule(
                        old(self)@.passes,
                        old(self)@.ever_sampled,
                        old(self)@.backbuffer,
                    ),
                ),
                ..old(self)@
            }),
            final(self).realloc_bytes() == old(self).realloc_bytes(),
    {
        let ghost ps = self@.passes;
        let ghost rule = last_use_rule(ps, self@.ever_sampled, self@.backbuffer);
        let mut handled: FxHashSet<(u64, u32)> = FxHashSet::default();
        let mut i: usize = self.passes.len();
        proof {
            self.lemma_all_shaped();
            lemma_mapped_ends(ps, rule);
            lemma_rows_from_end(ps, rule);
        }
        while i > 0
            invariant
                i <= ps.len(),
                ps == old(self)@.passes,
                rule == last_use_rule(ps, old(self)@.ever_sampled, old(self)@.backbuffer),
                all_shaped(ps),
                self@ == (PassStateView {
                    passes: mapped_upto(ps, rule, i - 1, 0),
                    ..old(self)@
                }),
                self.realloc_bytes() == old(self).realloc_bytes(),
                forall|k: (u64, u32)| #[trigger]
                    handled@.contains(k) ==> exists|j: int, s: int| #[trigger]
                        uses(ps, j, s, k) && walked_before(j, s, i - 1, 0),
                forall|j: int, s: int, k: (u64, u32)| #[trigger]
                    uses(ps, j, s, k) && walked_before(j, s, i - 1, 0) && k.0
                        != old(self)@.backbuffer ==> handled@.contains(k),
            decreases i,
        {
            i -= 1;
            let mut slot: usize = 0;
            while slot < 4
                invariant
                    i < ps.len(),
                    slot <= 4,
                    ps == old(self)@.passes,
                    rule == last_use_rule(ps, old(self)@.ever_sampled, old(self)@.backbuffer),
                    all_shaped(ps),
                    self@ == (PassStateView {
                        passes: mapped_upto(ps, rule, i as int, slot as int),
                        ..old(self)@
                    }),
                    self.realloc_bytes() == old(self).realloc_bytes(),
                    forall|k: (u64, u32)| #[trigger]
                        handled@.contains(k) ==> exists|j: int, s: int| #[trigger]
                            uses(ps, j, s, k) && walked_before(j, s, i as int, slot as int),
                    forall|j: int, s: int, k: (u64, u32)| #[trigger]
                        uses(ps, j, s, k) && walked_before(j, s, i as int, slot as int) && k.0
                            != old(self)@.backbuffer ==> handled@.contains(k),
                decreases 4 - slot,
            {
                proof {
                    lemma_mapped_step(ps, rule, i as int, slot as int);
                }
                assert(self@.passes.len() == ps.len());
                let a: PassColorAttachment = self.passes[i].color_at(slot);
                assert(a == ps[i as int].color_at(slot as int));
                let mut changed: PassColorAttachment = a;
                if a.is_bound() && a.texture != self.backbuffer {
                    let key: (u64, u32) = (a.texture, a.subresource);
                    assert(uses(ps, i as int, slot as int, key));
                    let ghost before = handled@;
                    let first: bool = sub_insert(&mut handled, key);
                    assert(first == is_last_use(ps, i as int, slot as int)) by {
                        if before.contains(key) {
                            let (j, s) = choose|j: int, s: int| #[trigger]
                                uses(ps, j, s, key) && walked_before(j, s, i as int, slot as int);
                            assert(uses(ps, j, s, key));
                        }
                    }
                    if first && !set_contains(&self.ever_sampled, a.texture) {
                        changed.store = StoreAction::DontCare;
                    }
                }
                assert(changed == rule(i as int, slot as int, a));
                self.set_color_at(i, slot, changed);
                slot += 1;
            }
            proof {
                lemma_mapped_row(ps, rule, i - 1);
            }
        }
        proof {
            lemma_mapped_ends(ps, rule);
        }
    }

    /// Gives every multisampled attachment its resolve in the last pass that draws into it.
    fn assign_multisample_resolves(&mut self)
        ensures
            final(self)@ == (PassStateView {
                passes: map_uses(old(self)@.passes, resolve_rule(old(self)@.passes)),
                ..old(self)@
            }),
            final(self).realloc_bytes() == old(self).realloc_bytes(),
    {
        let ghost ps = self@.passes;
        let ghost rule = resolve_rule(ps);
        let mut resolved: FxHashSet<(u64, u32)> = FxHashSet::default();
        let mut i: usize = self.passes.len();
        proof {
            self.lemma_all_shaped();
            lemma_mapped_ends(ps, rule);
            lemma_rows_from_end(ps, rule);
        }
        while i > 0
            invariant
                i <= ps.len(),
                ps == old(self)@.passes,
                rule == resolve_rule(ps),
                all_shaped(ps),
                self@ == (PassStateView {
                    passes: mapped_upto(ps, rule, i - 1, 0),
                    ..old(self)@
                }),
                self.realloc_bytes() == old(self).realloc_bytes(),
                forall|k: (u64, u32)| #[trigger]
                    resolved@.contains(k) ==> exists|j: int, s: int| #[trigger]
                        uses_msaa(ps, j, s, k) && walked_before(j, s, i - 1, 0),
                forall|j: int, s: int, k: (u64, u32)| #[trigger]
                    uses_msaa(ps, j, s, k) && walked_before(j, s, i - 1, 0) ==> resolved@.contains(
                        k,
                    ),
            decreases i,
        {
            i -= 1;
            let mut slot: usize = 0;
            while slot < 4
                invariant
                    i < ps.len(),
                    slot <= 4,
                    ps == old(self)@.passes,
                    rule == resolve_rule(ps),
                    all_shaped(ps),
                    self@ == (PassStateView {
                        passes: mapped_upto(ps, rule, i as int, slot as int),
                        ..old(self)@
                    }),
                    self.realloc_bytes() == old(self).realloc_bytes(),
                    forall|k: (u64, u32)| #[trigger]
                        resolved@.contains(k) ==> exists|j: int, s: int| #[trigger]
                            uses_msaa(ps, j, s, k) && walked_before(j, s, i as int, slot as int),
                    forall|j: int, s: int, k: (u64, u32)| #[trigger]
                        uses_msaa(ps, j, s, k) && walked_before(j, s, i as int, slot as int)
                            ==> resolved@.contains(k),
                decreases 4 - slot,
            {
                proof {
                    lemma_mapped_step(ps, rule, i as int, slot as int);
                }
                assert(self@.passes.len() == ps.len());
                let a: PassColorAttachment = self.passes[i].color_at(slot);
                assert(a == ps[i as int].color_at(slot as int));
                let mut changed: PassColorAttachment = a;
                if a.msaa_texture != 0 {
                    let key: (u64, u32) = (a.texture, a.subresource);
                    assert(uses_msaa(ps, i as int, slot as int, key));
                    let ghost before = resolved@;
                    let first: bool = sub_insert(&mut resolved, key);
                    assert(first == is_last_msaa_use(ps, i as int, slot as int)) by {
                        if before.contains(key) {
                            let (j, s) = choose|j: int, s: int| #[trigger]
                                uses_msaa(ps, j, s, key) && walked_before(
                                    j,
                                    s,
                                    i as int,
                                    slot as int,
                                );
                            assert(uses_msaa(ps, j, s, key));
                        }
                    }
                    if first {
                        changed.resolve_texture = a.resolve_view();
                    }
                }
                assert(changed == rule(i as int, slot as int, a));
                self.set_color_at(i, slot, changed);
                slot += 1;
            }
            proof {
                lemma_mapped_row(ps, rule, i - 1);
            }
        }
        proof {
            lemma_mapped_ends(ps, rule);
        }
    }

    /// Settles the store actions of the recorded passes, and which of them resolve their
    /// multisampled attachments. `frame_continues` marks a flush in the middle of a frame.
    pub fn finalize_store_actions(&mut self, frame_continues: bool)
        ensures
            final(self)@ == old(self)@.stores_settled(frame_continues),
            final(self).realloc_bytes() == old(self).realloc_bytes(),
    {
        if !frame_continues {
            self.settle_depth_stores();
        }
        self.settle_next_clears();
        if !frame_continues {
            self.settle_last_uses();
        }
        self.assign_multisample_resolves();
    }

    /// Has a multisampled texture resolved by the pass that last drew into its companion,
    /// because something is about to read it.
    pub fn note_msaa_read(&mut self, texture: u64)
        ensures
            final(self)@ == old(self)@.msaa_read(texture),
            final(self).realloc_bytes() == old(self).realloc_bytes(),
    {
        if texture == 0 {
            return;
        }
        let ghost ps = self@.passes;
        let mut i: usize = self.passes.len();
        assert(ps.take(i as int) =~= ps);
        while i > 0
            invariant
                i <= ps.len(),
                texture != 0,
                ps == old(self)@.passes,
                self@ == old(self)@,
                self.realloc_bytes() == old(self).realloc_bytes(),
                PassStateView::msaa_writer(ps, texture) == PassStateView::msaa_writer(
                    ps.take(i as int),
                    texture,
                ),
            decreases i,
        {
            i -= 1;
            assert(ps.take(i + 1).drop_last() =~= ps.take(i as int));
            assert(ps.take(i + 1)[i as int] == ps[i as int]);
            let mut slot: usize = 0;
            while slot < 4
                invariant
                    i < ps.len(),
                    slot <= 4,
                    texture != 0,
                    ps == old(self)@.passes,
                    self@ == old(self)@,
                    self.realloc_bytes() == old(self).realloc_bytes(),
                    ps.take(i + 1)[i as int] == ps[i as int],
                    ps.take(i + 1).len() == i + 1,
                    PassStateView::msaa_writer(ps, texture) == PassStateView::msaa_writer(
                        ps.take(i + 1),
                        texture,
                    ),
                    forall|s: int|
                        0 <= s < slot ==> !draws_msaa(
                            #[trigger] ps[i as int].color_at(s),
                            texture,
                        ),
                decreases 4 - slot,
            {
                let mut a: PassColorAttachment = self.passes[i].color_at(slot);
                assert(a == ps[i as int].color_at(slot as int));
                if a.texture == texture && a.msaa_texture != 0 {
                    a.resolve_texture = a.resolve_view();
                    assert(PassStateView::msaa_writer(ps, texture) == Some(
                        (i as int, slot as int),
                    ));
                    self.set_color_at(i, slot, a);
                    return;
                }
                slot += 1;
            }
            assert(!draws_msaa(ps[i as int].color_at(0), texture));
            assert(!draws_msaa(ps[i as int].color_at(1), texture));
            assert(!draws_msaa(ps[i as int].color_at(2), texture));
            assert(!draws_msaa(ps[i as int].color_at(3), texture));
        }
        assert(ps.take(0).len() == 0);
    }
}

proof fn lemma_rows_from_end(
    ps: Seq<PassView>,
    rule: spec_fn(int, int, PassColorAttachment) -> PassColorAttachment,
)
    requires
        all_shaped(ps),
    ensures
        mapped_upto(ps, rule, ps.len() - 1, 0) == ps,
{
    let a = mapped_upto(ps, rule, ps.len() - 1, 0);
    assert forall|j: int| 0 <= j < ps.len() implies a[j] == ps[j] by {
        assert(a[j].extra =~= ps[j].extra);
        assert(a[j] =~= ps[j]);
    }
    assert(a =~= ps);
}

proof fn lemma_next_use_unique(ps: Seq<PassView>, i: int, slot: int, j: int, s: int)
    requires
        is_next_use(
            ps,
            (ps[i].color_at(slot).texture, ps[i].color_at(slot).subresource),
            i,
            slot,
            j,
            s,
        ),
    ensures
        next_use_clears(ps, i, slot) <==> ps[j].color_at(s).load is Clear,
{
    let key = (ps[i].color_at(slot).texture, ps[i].color_at(slot).subresource);
    if next_use_clears(ps, i, slot) {
        let (j2, s2) = choose|j2: int, s2: int|
            #[trigger] is_next_use(ps, key, i, slot, j2, s2) && ps[j2].color_at(s2).load is Clear;
        assert(uses(ps, j2, s2, key));
        assert(uses(ps, j, s, key));
    }
}

} // verus!
