//! Texture stages.

use super::{FfState, FfStateView, FfVsDirty};
use crate::bits::{bit8, with_bit8, zero_has_no_bits};
use crate::bytes::{put_word, word_at};
use crate::d3d9::{
    texture_stage_state_default, tss_default, D3DTSS_ALPHAARG1, D3DTSS_ALPHAARG2, D3DTSS_ALPHAOP,
    D3DTSS_BUMPENVLOFFSET, D3DTSS_BUMPENVLSCALE, D3DTSS_BUMPENVMAT00, D3DTSS_BUMPENVMAT01,
    D3DTSS_BUMPENVMAT10, D3DTSS_BUMPENVMAT11, D3DTSS_COLORARG1, D3DTSS_COLORARG2, D3DTSS_COLOROP,
    D3DTSS_TEXCOORDINDEX, D3DTSS_TEXTURETRANSFORMFLAGS,
};
use vstd::prelude::*;

verus! {

/// Whether a state of a texture stage has an effect on the shaders.
pub open spec fn is_consumed(ty: int) -> bool {
    ty == D3DTSS_COLOROP || ty == D3DTSS_COLORARG1 || ty == D3DTSS_COLORARG2 || ty
        == D3DTSS_ALPHAOP || ty == D3DTSS_ALPHAARG1 || ty == D3DTSS_ALPHAARG2 || ty
        == D3DTSS_TEXCOORDINDEX || ty == D3DTSS_TEXTURETRANSFORMFLAGS
}

fn tss_classify(ty: u32) -> (r: bool)
    ensures
        r == is_consumed(ty as int),
{
    ty == D3DTSS_COLOROP || ty == D3DTSS_COLORARG1 || ty == D3DTSS_COLORARG2 || ty == D3DTSS_ALPHAOP
        || ty == D3DTSS_ALPHAARG1 || ty == D3DTSS_ALPHAARG2 || ty == D3DTSS_TEXCOORDINDEX || ty
        == D3DTSS_TEXTURETRANSFORMFLAGS
}

/// Whether a write is one to warn of: it sets a state that has no effect to something
/// else than it starts with, and no warning was given before.
pub open spec fn warns(v: FfStateView, stage: int, ty: int, value: u32) -> bool {
    value != tss_default(stage, ty) && !is_consumed(ty) && !v.warned[stage][ty]
}

/// The state after a state of a texture stage was set.
pub open spec fn stage_set(v: FfStateView, stage: int, ty: int, value: u32) -> FfStateView {
    let flips = ty == D3DTSS_TEXTURETRANSFORMFLAGS && (v.stages[stage][ty] != 0) != (value != 0);
    FfStateView {
        stages: v.stages.update(stage, v.stages[stage].update(ty, value)),
        warned: if warns(v, stage, ty, value) {
            v.warned.update(stage, v.warned[stage].update(ty, true))
        } else {
            v.warned
        },
        dirty: FfVsDirty { tt: v.dirty.tt || flips, ..v.dirty },
        ..v
    }
}

/// Whether a stage transforms its coordinates.
pub open spec fn transforms_coords(stages: Seq<Seq<u32>>, i: int) -> bool {
    stages[i][D3DTSS_TEXTURETRANSFORMFLAGS as int] != 0
}

/// Whether a stage divides its coordinates by the last one.
pub open spec fn projects_coords(stages: Seq<Seq<u32>>, i: int) -> bool {
    stages[i][D3DTSS_TEXTURETRANSFORMFLAGS as int] / 256 % 2 == 1
}

/// The state that lane `lane` of the bump mapping values of a stage comes from, if any.
pub open spec fn bump_state(lane: int) -> Option<u32> {
    if lane == 0 {
        Some(D3DTSS_BUMPENVMAT00)
    } else if lane == 1 {
        Some(D3DTSS_BUMPENVMAT01)
    } else if lane == 2 {
        Some(D3DTSS_BUMPENVMAT10)
    } else if lane == 3 {
        Some(D3DTSS_BUMPENVMAT11)
    } else if lane == 4 {
        Some(D3DTSS_BUMPENVLSCALE)
    } else if lane == 5 {
        Some(D3DTSS_BUMPENVLOFFSET)
    } else {
        None
    }
}

/// Word `w` of the bump mapping values: eight words for each stage.
pub open spec fn bump_word(stages: Seq<Seq<u32>>, w: int) -> u32 {
    match bump_state(w % 8) {
        Some(ty) => stages[w / 8][ty as int],
        None => 0,
    }
}

impl FfState {
    /// A state of a texture stage.
    pub fn texture_stage_state(&self, stage: usize, ty: usize) -> (r: u32)
        requires
            stage < 8,
            ty < 33,
        ensures
            r == self@.stages[stage as int][ty as int],
    {
        self.texture_stage_states[stage][ty]
    }

    /// Whether a warning about a state of a texture stage was given.
    pub fn tss_warn_fired(&self, stage: usize, ty: usize) -> (r: bool)
        requires
            stage < 8,
            ty < 33,
        ensures
            r == self@.warned[stage as int][ty as int],
    {
        self.tss_warn_fired[stage][ty]
    }

    /// Whether a write to a state of a texture stage would be one to warn of.
    pub fn warns_of_texture_stage_state(&self, stage: usize, ty: usize, value: u32) -> (r: bool)
        requires
            stage < 8,
            ty < 33,
        ensures
            r == warns(self@, stage as int, ty as int, value),
    {
        value != texture_stage_state_default(stage, ty) && !tss_classify(ty as u32)
            && !self.tss_warn_fired[stage][ty]
    }

    /// Sets a state of a texture stage, and says whether it was another before.
    pub fn set_texture_stage_state(&mut self, stage: usize, ty: usize, value: u32) -> (r: bool)
        requires
            old(self).wf(),
            stage < 8,
            ty < 33,
        ensures
            final(self).wf(),
            r == (old(self)@.stages[stage as int][ty as int] != value),
            final(self)@ == stage_set(old(self)@, stage as int, ty as int, value),
    {
        let before: u32 = self.texture_stage_states[stage][ty];
        if self.warns_of_texture_stage_state(stage, ty, value) {
            self.tss_warn_fired[stage][ty] = true;
        }
        self.texture_stage_states[stage][ty] = value;
        if ty as u32 == D3DTSS_TEXTURETRANSFORMFLAGS && (before != 0) != (value != 0) {
            self.ff_vs_dirty.tt = true;
        }
        let ghost want = stage_set(old(self)@, stage as int, ty as int, value);
        assert(self@.stages =~= want.stages);
        assert(self@.warned =~= want.warned);
        assert(self@ =~= want);
        before != value
    }

    /// The stages that transform their coordinates.
    pub fn tt_active_mask(&self) -> (r: u8)
        ensures
            forall|i: int| 0 <= i < 8 ==> #[trigger] bit8(r, i) == transforms_coords(self@.stages, i),
    {
        let mut mask: u8 = 0;
        let mut i: u32 = 0;
        proof {
            zero_has_no_bits();
        }
        while i < 8
            invariant
                i <= 8,
                forall|j: int|
                    0 <= j < 8 ==> #[trigger] bit8(mask, j) == (j < i && transforms_coords(
                        self@.stages,
                        j,
                    )),
            decreases 8 - i,
        {
            if self.texture_stage_states[i as usize][D3DTSS_TEXTURETRANSFORMFLAGS as usize] != 0 {
                mask = with_bit8(mask, i);
            }
            i += 1;
        }
        mask
    }

    /// The stages that divide their coordinates by the last one.
    pub fn tt_projected_mask(&self) -> (r: u8)
        ensures
            forall|i: int| 0 <= i < 8 ==> #[trigger] bit8(r, i) == projects_coords(self@.stages, i),
    {
        let mut mask: u8 = 0;
        let mut i: u32 = 0;
        proof {
            zero_has_no_bits();
        }
        while i < 8
            invariant
                i <= 8,
                forall|j: int|
                    0 <= j < 8 ==> #[trigger] bit8(mask, j) == (j < i && projects_coords(
                        self@.stages,
                        j,
                    )),
            decreases 8 - i,
        {
            let flags: u32 =
                self.texture_stage_states[i as usize][D3DTSS_TEXTURETRANSFORMFLAGS as usize];
            if flags / 256 % 2 == 1 {
                mask = with_bit8(mask, i);
            }
            i += 1;
        }
        mask
    }

    /// The bump mapping values of the stages: for each a matrix of two rows, a scale and
    /// an offset, then two words of zero.
    pub fn build_bump_env_bytes(&self) -> (r: [u8; 256])
        ensures
            forall|w: int| 0 <= w < 64 ==> #[trigger] word_at(r@, w) == bump_word(self@.stages, w),
    {
        let mut bytes: [u8; 256] = [0; 256];
        let mut w: usize = 0;
        while w < 64
            invariant
                w <= 64,
                forall|u: int|
                    0 <= u < w ==> #[trigger] word_at(bytes@, u) == bump_word(self@.stages, u),
            decreases 64 - w,
        {
            let lane: usize = w % 8;
            let states: &[u32; 33] = &self.texture_stage_states[w / 8];
            let v: u32 = if lane == 0 {
                states[D3DTSS_BUMPENVMAT00 as usize]
            } else if lane == 1 {
                states[D3DTSS_BUMPENVMAT01 as usize]
            } else if lane == 2 {
                states[D3DTSS_BUMPENVMAT10 as usize]
            } else if lane == 3 {
                states[D3DTSS_BUMPENVMAT11 as usize]
            } else if lane == 4 {
                states[D3DTSS_BUMPENVLSCALE as usize]
            } else if lane == 5 {
                states[D3DTSS_BUMPENVLOFFSET as usize]
            } else {
                0
            };
            assert(v == bump_word(self@.stages, w as int));
            put_word(&mut bytes, w, v);
            w += 1;
        }
        bytes
    }
}

} // verus!
