//! Clears: folded into a load action where nobody can tell, painted where it shows.

use super::attachment::PassColorAttachment;
use super::model::{clear_to_load, PassStateView, PassView};
use super::{
    ColorClearOutcome, ColorLoad, DepthClearOutcome, DepthLoad, PassState, Rect,
    StencilClearOutcome, StencilLoad,
};
use crate::fx::{set_contains, sub_contains};
use crate::metal::PixelFormat;
use vstd::prelude::*;

verus! {

/// What to do with the colour load actions of a pass.
#[derive(Clone, Copy, Debug, PartialEq, Eq, Structural)]
enum LoadChange {
    ClearToLoad,
    AllToLoad,
    AllTo { load: ColorLoad },
}

impl LoadChange {
    spec fn apply_spec(self, load: ColorLoad) -> ColorLoad {
        match self {
            LoadChange::ClearToLoad => clear_to_load(load),
            LoadChange::AllToLoad => ColorLoad::Load,
            LoadChange::AllTo { load: to } => to,
        }
    }

    fn apply(self, load: ColorLoad) -> (r: ColorLoad)
        ensures
            r == self.apply_spec(load),
    {
        match self {
            LoadChange::ClearToLoad => match load {
                ColorLoad::Clear { r: _, g: _, b: _, a: _ } => ColorLoad::Load,
                _ => load,
            },
            LoadChange::AllToLoad => ColorLoad::Load,
            LoadChange::AllTo { load: to } => to,
        }
    }
}

impl PassState {
    fn current_pass_has_work(&self) -> (r: bool)
        ensures
            r == self@.has_work(),
    {
        !self.closed && self.passes.len() > 0 && self.passes[self.passes.len() - 1].list.commands.len()
            > 1
    }

    fn current_pass_has_counting_visibility(&self) -> (r: bool)
        ensures
            r == self@.counts_visibility(),
    {
        !self.closed && self.passes.len() > 0 && self.passes[self.passes.len()
            - 1].has_counting_visibility
    }

    fn extra_target_seen(&self, i: usize) -> (r: bool)
        requires
            i < 3,
        ensures
            r == (self@.extra_present[i as int] && self@.segment_color.contains(
                (self@.extra[i as int].texture, self@.extra[i as int].subresource),
            )),
    {
        self.extra_present[i] && sub_contains(
            &self.segment_color,
            (self.extra[i].texture, self.extra[i].subresource),
        )
    }

    fn any_bound_color_target_seen(&self) -> (r: bool)
        ensures
            r == self@.bound_color_seen(),
    {
        assert(self@.extra[0] == self.extra[0] && self@.extra[1] == self.extra[1] && self@.extra[2]
            == self.extra[2]);
        (self.color_texture != 0 && sub_contains(
            &self.segment_color,
            (self.color_texture, self.color_subresource),
        )) || self.extra_target_seen(0) || self.extra_target_seen(1) || self.extra_target_seen(2)
    }

    fn change_extra_load(&mut self, i: usize, change: LoadChange)
        requires
            i < 3,
            old(self)@.passes.len() > 0,
        ensures
            final(self)@ == ({
                let p = old(self)@.passes.last();
                let a = p.extra[i as int];
                old(self)@.with_last(
                    PassView {
                        extra: p.extra.update(
                            i as int,
                            if a.is_bound_spec() {
                                PassColorAttachment { load: change.apply_spec(a.load), ..a }
                            } else {
                                a
                            },
                        ),
                        ..p
                    },
                )
            }),
            final(self).realloc_bytes() == old(self).realloc_bytes(),
    {
        let last: usize = self.passes.len() - 1;
        let mut a: PassColorAttachment = self.passes[last].extra_color[i];
        if a.is_bound() {
            a.load = change.apply(a.load);
        }
        self.passes[last].extra_color[i] = a;
    }

    fn change_color_loads(&mut self, change: LoadChange)
        requires
            old(self)@.passes.len() > 0,
        ensures
            final(self)@ == old(self)@.with_color_loads(|l: ColorLoad| change.apply_spec(l)),
            final(self).realloc_bytes() == old(self).realloc_bytes(),
    {
        let ghost start = self@;
        let last: usize = self.passes.len() - 1;
        assert(start.passes.last().extra.len() == 3) by {
            assert(start.passes.last() == self.passes[last as int]@);
        }
        let load: ColorLoad = change.apply(self.passes[last].color.load);
        self.passes[last].color.load = load;
        self.change_extra_load(0, change);
        self.change_extra_load(1, change);
        self.change_extra_load(2, change);
        proof {
            let want = start.with_color_loads(|l: ColorLoad| change.apply_spec(l));
            assert(self@.passes.last().extra =~= want.passes.last().extra);
            assert(self@.passes.last() =~= want.passes.last());
            assert(self@.passes =~= want.passes);
            assert(self@ =~= want);
        }
    }

    /// Clears the colour attachments to a colour given as IEEE bits.
    pub fn clear_color(&mut self, r: u32, g: u32, b: u32, a: u32) -> (out: ColorClearOutcome)
        ensures
            (final(self)@, out) == old(self)@.color_cleared((r, g, b, a)),
            final(self).realloc_bytes() == old(self).realloc_bytes(),
    {
        let viewport: Rect = self.effective_viewport();
        let color_format: PixelFormat = self.color_attachment_format();
        if self.current_pass_has_work() {
            if self.current_pass_has_counting_visibility() {
                self.end_current_pass();
            } else {
                return ColorClearOutcome::EmitQuad { rgba: (r, g, b, a), viewport, color_format };
            }
        }
        if self.any_bound_color_target_seen() && self.game_viewport.2 > 0 && self.game_viewport.3
            > 0 {
            self.ensure_pass_open();
            let ghost opened = self@;
            self.change_color_loads(LoadChange::ClearToLoad);
            assert(self@ == opened.with_color_loads(|l: ColorLoad| clear_to_load(l))) by {
                assert((|l: ColorLoad| LoadChange::ClearToLoad.apply_spec(l)) =~= (|l: ColorLoad|
                    clear_to_load(l)));
            }
            return ColorClearOutcome::EmitQuad { rgba: (r, g, b, a), viewport, color_format };
        }
        if !self.closed && self.passes.len() > 0 {
            self.pending_color_clear = None;
            let ghost before = self@;
            let load: ColorLoad = ColorLoad::Clear { r, g, b, a };
            self.change_color_loads(LoadChange::AllTo { load });
            assert(self@ == before.with_color_loads(|l: ColorLoad| load)) by {
                assert((|l: ColorLoad| LoadChange::AllTo { load }.apply_spec(l)) =~= (|l: ColorLoad|
                    load));
            }
            return ColorClearOutcome::Folded;
        }
        self.pending_color_clear = Some((r, g, b, a));
        ColorClearOutcome::Folded
    }

    /// Gets a pass ready in which part of the colour attachments is painted clear. Returns
    /// the format that the paint has to declare.
    pub fn begin_region_color_clear(&mut self) -> (r: PixelFormat)
        ensures
            final(self)@ == old(self)@.region_color_begun(),
            r == old(self)@.color_attachment_format(),
            final(self).realloc_bytes() == old(self).realloc_bytes(),
    {
        if self.current_pass_has_counting_visibility() {
            self.end_current_pass();
        }
        let fresh: bool = self.closed || self.passes.len() == 0;
        let had_pending_clear: bool = self.pending_color_clear.is_some();
        self.ensure_pass_open();
        if fresh && !had_pending_clear {
            let ghost opened = self@;
            self.change_color_loads(LoadChange::AllToLoad);
            assert(self@ == opened.with_color_loads(|l: ColorLoad| ColorLoad::Load)) by {
                assert((|l: ColorLoad| LoadChange::AllToLoad.apply_spec(l)) =~= (|l: ColorLoad|
                    ColorLoad::Load));
            }
        }
        self.color_attachment_format()
    }

    /// Gets a pass ready in which part of the depth-stencil attachment is painted clear.
    /// Returns whether the pass has a colour attachment, and its format; nothing when the
    /// pass would carry no depth.
    pub fn begin_region_depth_stencil_clear(&mut self) -> (r: Option<(bool, PixelFormat)>)
        ensures
            !old(self)@.binds_depth() ==> r is None && final(self)@ == old(self)@,
            old(self)@.binds_depth() ==> final(self)@ == old(self)@.region_depth_begun() && r
                == Some((old(self)@.color_texture != 0, old(self)@.color_attachment_format())),
            final(self).realloc_bytes() == old(self).realloc_bytes(),
    {
        if !self.pass_binds_depth() {
            return None;
        }
        if self.current_pass_has_counting_visibility() {
            self.end_current_pass();
        }
        let fresh: bool = self.closed || self.passes.len() == 0;
        let had_pending_depth: bool = self.pending_depth_clear.is_some();
        let had_pending_stencil: bool = self.pending_stencil_clear.is_some();
        self.ensure_pass_open();
        if fresh {
            let last: usize = self.passes.len() - 1;
            if !had_pending_depth {
                self.passes[last].depth_load = DepthLoad::Load;
            }
            if !had_pending_stencil {
                self.passes[last].stencil_load = StencilLoad::Load;
            }
        }
        assert(self@ =~= old(self)@.region_depth_begun());
        Some((self.color_texture != 0, self.color_attachment_format()))
    }

    fn depth_clear_crosses(&self) -> (r: bool)
        ensures
            r == self@.depth_clear_crosses(),
    {
        set_contains(&self.segment_depth, self.depth_texture) && self.game_viewport.2 != 0
            && self.game_viewport.3 != 0
    }

    /// Clears the depth plane to a value given as IEEE bits.
    pub fn clear_depth(&mut self, value: u32) -> (out: DepthClearOutcome)
        ensures
            (final(self)@, out) == old(self)@.depth_cleared(value),
            out is NoOp ==> final(self)@ == old(self)@,
            final(self).realloc_bytes() == old(self).realloc_bytes(),
    {
        if !self.pass_binds_depth() {
            return DepthClearOutcome::NoOp;
        }
        let vp: Rect = self.effective_viewport();
        let empty: bool = vp.2 == 0 || vp.3 == 0;
        let crosses: bool = self.depth_clear_crosses();
        let quad: DepthClearOutcome = DepthClearOutcome::EmitQuad {
            value,
            viewport: vp,
            has_color: self.color_texture != 0,
            color_format: self.color_attachment_format(),
        };
        if self.current_pass_has_work() {
            if !self.current_pass_has_counting_visibility() {
                if empty {
                    return DepthClearOutcome::NoOp;
                }
                return quad;
            }
            if !(crosses && empty) {
                self.end_current_pass();
            }
        }
        if crosses {
            if empty {
                return DepthClearOutcome::NoOp;
            }
            self.clear_depth_cross_pass();
            return quad;
        }
        if !self.closed && self.passes.len() > 0 {
            self.clear_depth_amend_open(value);
        } else {
            self.pending_depth_clear = Some(value);
        }
        DepthClearOutcome::Folded
    }

    /// Opens a pass that keeps the depth content a clear will be painted over.
    fn clear_depth_cross_pass(&mut self)
        ensures
            final(self)@ == ({
                let t = old(self)@.opened();
                let p = t.passes.last();
                t.with_last(
                    PassView {
                        depth_load: if p.depth_load is Clear {
                            DepthLoad::Load
                        } else {
                            p.depth_load
                        },
                        ..p
                    },
                )
            }),
            final(self).realloc_bytes() == old(self).realloc_bytes(),
    {
        self.ensure_pass_open();
        let ghost t = self@;
        let last: usize = self.passes.len() - 1;
        let load: DepthLoad = match self.passes[last].depth_load {
            DepthLoad::Clear { value: _ } => DepthLoad::Load,
            other => other,
        };
        self.passes[last].depth_load = load;
        assert(self@ =~= t.with_last(PassView { depth_load: load, ..t.passes.last() }));
    }

    /// Makes a depth clear the load action of the open pass.
    fn clear_depth_amend_open(&mut self, value: u32)
        requires
            old(self)@.passes.len() > 0,
        ensures
            final(self)@ == (PassStateView { pending_depth_clear: None, ..old(self)@ }).with_last(
                PassView { depth_load: DepthLoad::Clear { value }, ..old(self)@.passes.last() },
            ),
            final(self).realloc_bytes() == old(self).realloc_bytes(),
    {
        let last: usize = self.passes.len() - 1;
        self.passes[last].depth_load = DepthLoad::Clear { value };
        self.pending_depth_clear = None;
    }

    /// Clears the stencil plane.
    pub fn clear_stencil(&mut self, value: u32) -> (out: StencilClearOutcome)
        ensures
            (final(self)@, out) == old(self)@.stencil_cleared(value),
            out is NoOp ==> final(self)@ == old(self)@,
            final(self).realloc_bytes() == old(self).realloc_bytes(),
    {
        if !self.pass_binds_depth() {
            return StencilClearOutcome::NoOp;
        }
        let vp: Rect = self.effective_viewport();
        let empty: bool = vp.2 == 0 || vp.3 == 0;
        let crosses: bool = self.depth_clear_crosses();
        let quad: StencilClearOutcome = StencilClearOutcome::EmitQuad {
            value,
            viewport: vp,
            has_color: self.color_texture != 0,
            color_format: self.color_attachment_format(),
        };
        if self.current_pass_has_work() {
            if !self.current_pass_has_counting_visibility() {
                if empty {
                    return StencilClearOutcome::NoOp;
                }
                return quad;
            }
            if !(crosses && empty) {
                self.end_current_pass();
            }
        }
        if crosses {
            if empty {
                return StencilClearOutcome::NoOp;
            }
            self.clear_stencil_cross_pass();
            return quad;
        }
        if !self.closed && self.passes.len() > 0 {
            self.clear_stencil_amend_open(value);
        } else {
            self.pending_stencil_clear = Some(value);
        }
        StencilClearOutcome::Folded
    }

    /// Opens a pass that keeps the stencil content a clear will be painted over.
    fn clear_stencil_cross_pass(&mut self)
        ensures
            final(self)@ == ({
                let t = old(self)@.opened();
                let p = t.passes.last();
                t.with_last(
                    PassView {
                        stencil_load: if p.stencil_load is Clear {
                            StencilLoad::Load
                        } else {
                            p.stencil_load
                        },
                        ..p
                    },
                )
            }),
            final(self).realloc_bytes() == old(self).realloc_bytes(),
    {
        self.ensure_pass_open();
        let ghost t = self@;
        let last: usize = self.passes.len() - 1;
        let load: StencilLoad = match self.passes[last].stencil_load {
            StencilLoad::Clear { value: _ } => StencilLoad::Load,
            other => other,
        };
        self.passes[last].stencil_load = load;
        assert(self@ =~= t.with_last(PassView { stencil_load: load, ..t.passes.last() }));
    }

    /// Makes a stencil clear the load action of the open pass.
    fn clear_stencil_amend_open(&mut self, value: u32)
        requires
            old(self)@.passes.len() > 0,
        ensures
            final(self)@ == (PassStateView { pending_stencil_clear: None, ..old(self)@ }).with_last(
                PassView { stencil_load: StencilLoad::Clear { value }, ..old(self)@.passes.last() },
            ),
            final(self).realloc_bytes() == old(self).realloc_bytes(),
    {
        let last: usize = self.passes.len() - 1;
        self.passes[last].stencil_load = StencilLoad::Clear { value };
        self.pending_stencil_clear = None;
    }

    /// Ends the pass and leaves a colour clear to the next one.
    pub fn clear_color_legacy_break(&mut self, r: u32, g: u32, b: u32, a: u32)
        ensures
            final(self)@ == (PassStateView {
                pending_color_clear: Some((r, g, b, a)),
                ..old(self)@.ended()
            }),
            final(self).realloc_bytes() == old(self).realloc_bytes(),
    {
        self.end_current_pass();
        self.pending_color_clear = Some((r, g, b, a));
    }

    /// Ends the pass and leaves a depth clear to the next one.
    pub fn clear_depth_legacy_break(&mut self, value: u32)
        ensures
            final(self)@ == (PassStateView {
                pending_depth_clear: Some(value),
                ..old(self)@.ended()
            }),
            final(self).realloc_bytes() == old(self).realloc_bytes(),
    {
        self.end_current_pass();
        self.pending_depth_clear = Some(value);
    }

    /// Ends the pass and leaves a stencil clear to the next one.
    pub fn clear_stencil_legacy_break(&mut self, value: u32)
        ensures
            final(self)@ == (PassStateView {
                pending_stencil_clear: Some(value),
                ..old(self)@.ended()
            }),
            final(self).realloc_bytes() == old(self).realloc_bytes(),
    {
        self.end_current_pass();
        self.pending_stencil_clear = Some(value);
    }
}

} // verus!
