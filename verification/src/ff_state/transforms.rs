//! Transforms.

use super::{is_transform, FfState, FfStateView, FfVsDirty};
use crate::d3d9::{
    D3DMATRIX, D3DTS_PROJECTION, D3DTS_TEXTURE0, D3DTS_TEXTURE7, D3DTS_VIEW, D3DTS_WORLD, ONE,
};
use vstd::prelude::*;

verus! {

/// The sections of the vertex constants that a transform goes into.
pub open spec fn transform_sections(state: u32) -> FfVsDirty {
    let none = FfVsDirty::empty_spec();
    if state == D3DTS_VIEW {
        FfVsDirty { wv: true, palette: true, lights: true, ..none }
    } else if state == D3DTS_PROJECTION {
        FfVsDirty { proj: true, ..none }
    } else if D3DTS_TEXTURE0 <= state <= D3DTS_TEXTURE7 {
        FfVsDirty { tt: true, ..none }
    } else if state == D3DTS_WORLD {
        FfVsDirty { wv: true, palette: true, ..none }
    } else if 257 <= state <= 511 {
        FfVsDirty { palette: true, ..none }
    } else {
        none
    }
}

fn transform_dirty_section(state: u32) -> (r: FfVsDirty)
    ensures
        r == transform_sections(state),
{
    let mut r: FfVsDirty = FfVsDirty::empty();
    if state == D3DTS_VIEW {
        r.wv = true;
        r.palette = true;
        r.lights = true;
    } else if state == D3DTS_PROJECTION {
        r.proj = true;
    } else if D3DTS_TEXTURE0 <= state && state <= D3DTS_TEXTURE7 {
        r.tt = true;
    } else if state == D3DTS_WORLD {
        r.wv = true;
        r.palette = true;
    } else if 257 <= state && state <= 511 {
        r.palette = true;
    }
    r
}

/// How many world matrices are in use once one was set.
pub open spec fn palette_with(used: int, state: u32) -> int {
    if 256 <= state <= 511 && state - 255 > used {
        state - 255
    } else {
        used
    }
}

/// The state after a transform was set.
pub open spec fn transformed(v: FfStateView, state: u32, m: D3DMATRIX) -> FfStateView {
    FfStateView {
        transforms: v.transforms.insert(state, m),
        palette_used: palette_with(v.palette_used, state),
        dirty: v.dirty.union_spec(transform_sections(state)),
        ..v
    }
}

/// The transpose of a matrix, element by element.
pub open spec fn is_transpose(r: Seq<u32>, m: Seq<u32>) -> bool {
    forall|i: int, j: int| 0 <= i < 4 && 0 <= j < 4 ==> #[trigger] r[i * 4 + j] == m[j * 4 + i]
}

impl FfState {
    /// The transform with a number; none for a number that is not kept.
    pub fn transform(&self, state: u32) -> (r: Option<&D3DMATRIX>)
        ensures
            match r {
                Some(m) => is_transform(state) && *m == self@.transforms[state],
                None => !is_transform(state),
            },
    {
        if state == D3DTS_VIEW {
            Some(&self.view)
        } else if state == D3DTS_PROJECTION {
            Some(&self.projection)
        } else if D3DTS_TEXTURE0 <= state && state <= D3DTS_TEXTURE7 {
            Some(&self.texture_transforms[(state - D3DTS_TEXTURE0) as usize])
        } else if 256 <= state && state <= 511 {
            Some(&self.world_palette[(state - 256) as usize])
        } else {
            None
        }
    }

    /// Sets the transform with a number, and says whether the number is one that is kept.
    pub fn set_transform(&mut self, state: u32, m: &D3DMATRIX) -> (r: bool)
        requires
            old(self).wf(),
        ensures
            final(self).wf(),
            r == is_transform(state),
            r ==> final(self)@ == transformed(old(self)@, state, *m),
            !r ==> final(self)@ == old(self)@,
    {
        if state == D3DTS_VIEW {
            self.view = *m;
        } else if state == D3DTS_PROJECTION {
            self.projection = *m;
        } else if D3DTS_TEXTURE0 <= state && state <= D3DTS_TEXTURE7 {
            self.texture_transforms[(state - D3DTS_TEXTURE0) as usize] = *m;
        } else if 256 <= state && state <= 511 {
            let idx: u16 = (state - 256) as u16;
            self.world_palette[idx as usize] = *m;
            if idx > self.world_palette_high_water {
                self.world_palette_high_water = idx;
            }
        } else {
            return false;
        }
        self.ff_vs_dirty = self.ff_vs_dirty.union(transform_dirty_section(state));
        assert(self@.transforms =~= old(self)@.transforms.insert(state, *m));
        assert(self@ =~= transformed(old(self)@, state, *m));
        true
    }

    /// How many world matrices are in use, counted from the first.
    pub fn world_palette_used(&self) -> (r: usize)
        requires
            self.wf(),
        ensures
            r == self@.palette_used,
            1 <= r <= 256,
    {
        self.world_palette_high_water as usize + 1
    }

    /// The world matrices.
    pub fn world_palette(&self) -> (r: &[D3DMATRIX; 256])
        ensures
            forall|i: int| 0 <= i < 256 ==> #[trigger] r@[i] == self@.transforms[(256 + i) as u32],
    {
        &self.world_palette
    }

    /// A matrix with rows and columns exchanged.
    pub fn transpose(m: &D3DMATRIX) -> (r: D3DMATRIX)
        ensures
            is_transpose(r.m@, m.m@),
    {
        let a: [u32; 16] = m.m;
        D3DMATRIX {
            m: [
                a[0],
                a[4],
                a[8],
                a[12],
                a[1],
                a[5],
                a[9],
                a[13],
                a[2],
                a[6],
                a[10],
                a[14],
                a[3],
                a[7],
                a[11],
                a[15],
            ],
        }
    }

    /// Whether the projection keeps the fourth coordinate at one: its last column is
    /// zero, of either sign, but for an exact one at the bottom.
    pub fn projection_is_ortho(&self) -> (r: bool)
        ensures
            r == is_ortho(self@.transforms[D3DTS_PROJECTION].m@),
    {
        let a: [u32; 16] = self.projection.m;
        is_zero(a[3]) && is_zero(a[7]) && is_zero(a[11]) && a[15] == ONE
    }
}

/// Whether a float, given as its bits, is zero of either sign.
pub open spec fn is_float_zero(bits: u32) -> bool {
    bits == 0 || bits == 0x8000_0000
}

/// Whether a projection keeps the fourth coordinate at one.
pub open spec fn is_ortho(m: Seq<u32>) -> bool {
    is_float_zero(m[3]) && is_float_zero(m[7]) && is_float_zero(m[11]) && m[15] == ONE
}

fn is_zero(bits: u32) -> (r: bool)
    ensures
        r == is_float_zero(bits),
{
    bits == 0 || bits == 0x8000_0000
}

/// Exchanging rows and columns twice gives the matrix back.
pub proof fn transposing_twice_changes_nothing(m: Seq<u32>, t: Seq<u32>, u: Seq<u32>)
    requires
        m.len() == 16,
        u.len() == 16,
        is_transpose(t, m),
        is_transpose(u, t),
    ensures
        u == m,
{
    assert forall|k: int| 0 <= k < 16 implies u[k] == m[k] by {
        let i = k / 4;
        let j = k % 4;
        assert(u[i * 4 + j] == t[j * 4 + i]);
        assert(t[j * 4 + i] == m[i * 4 + j]);
    }
    assert(u =~= m);
}

} // verus!
