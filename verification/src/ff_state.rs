//! The state of the fixed-function pipeline.

use crate::d3d9::{
    texture_stage_state_default, tss_default, D3DLIGHT9, D3DMATERIAL9, D3DMATRIX, D3DTS_PROJECTION,
    D3DTS_TEXTURE0, D3DTS_TEXTURE7, D3DTS_VIEW,
};
use std::collections::BTreeMap;
use vstd::prelude::*;

pub mod constant_laws;
pub mod key_laws;
pub mod keys;
pub mod laws;
pub mod lights;
pub mod sections;
pub mod snapshot;
pub mod stages;
pub mod transforms;
pub mod upload;

pub use keys::FogConfig;
pub use sections::{build_fog_color_bytes, EyeLight, Section};
pub use snapshot::FfStateSnapshot;

verus! {

/// How many lights shine on a vertex at the most.
pub const MAX_ACTIVE_LIGHTS: u32 = 8;

/// The sections of the vertex constants that have to be sent again.
#[derive(Clone, Copy, Debug, PartialEq, Eq, Structural)]
pub struct FfVsDirty {
    /// Rows 0 to 3: world and view.
    pub wv: bool,
    /// Rows 4 to 7: projection.
    pub proj: bool,
    /// Row 8: fog.
    pub fog: bool,
    /// Row 9: ambient light.
    pub ambient: bool,
    /// Rows 10 to 14: material.
    pub material: bool,
    /// Rows 15 to 62: lights.
    pub lights: bool,
    /// Rows 63 to 94: texture transforms.
    pub tt: bool,
    /// Rows 95 and on: world matrices for blending.
    pub palette: bool,
}

impl FfVsDirty {
    /// Every section.
    pub open spec fn all_spec() -> FfVsDirty {
        FfVsDirty {
            wv: true,
            proj: true,
            fog: true,
            ambient: true,
            material: true,
            lights: true,
            tt: true,
            palette: true,
        }
    }

    /// No section.
    pub open spec fn empty_spec() -> FfVsDirty {
        FfVsDirty {
            wv: false,
            proj: false,
            fog: false,
            ambient: false,
            material: false,
            lights: false,
            tt: false,
            palette: false,
        }
    }

    /// The sections of both.
    pub open spec fn union_spec(self, other: FfVsDirty) -> FfVsDirty {
        FfVsDirty {
            wv: self.wv || other.wv,
            proj: self.proj || other.proj,
            fog: self.fog || other.fog,
            ambient: self.ambient || other.ambient,
            material: self.material || other.material,
            lights: self.lights || other.lights,
            tt: self.tt || other.tt,
            palette: self.palette || other.palette,
        }
    }

    /// Every section.
    pub fn all() -> (r: FfVsDirty)
        ensures
            r == Self::all_spec(),
    {
        FfVsDirty {
            wv: true,
            proj: true,
            fog: true,
            ambient: true,
            material: true,
            lights: true,
            tt: true,
            palette: true,
        }
    }

    /// No section.
    pub fn empty() -> (r: FfVsDirty)
        ensures
            r == Self::empty_spec(),
    {
        FfVsDirty {
            wv: false,
            proj: false,
            fog: false,
            ambient: false,
            material: false,
            lights: false,
            tt: false,
            palette: false,
        }
    }

    /// The sections of both.
    pub fn union(self, other: FfVsDirty) -> (r: FfVsDirty)
        ensures
            r == self.union_spec(other),
    {
        FfVsDirty {
            wv: self.wv || other.wv,
            proj: self.proj || other.proj,
            fog: self.fog || other.fog,
            ambient: self.ambient || other.ambient,
            material: self.material || other.material,
            lights: self.lights || other.lights,
            tt: self.tt || other.tt,
            palette: self.palette || other.palette,
        }
    }
}

/// A light that was set or switched, and whether it is on.
#[derive(Clone, Copy, Debug, PartialEq, Eq, Structural)]
pub struct LightSlot {
    pub light: D3DLIGHT9,
    pub enabled: bool,
}

/// What the state of the fixed-function pipeline is.
#[verifier::ext_equal]
pub struct FfStateView {
    /// The transforms that are kept, by their number.
    pub transforms: Map<u32, D3DMATRIX>,
    /// How many world matrices are in use, counted from the first.
    pub palette_used: int,
    pub material: D3DMATERIAL9,
    /// The lights that were set or switched, by their index.
    pub lights: Map<u32, LightSlot>,
    /// Per texture stage: its states.
    pub stages: Seq<Seq<u32>>,
    /// Per texture stage and state: whether a warning about it is no longer due.
    pub warned: Seq<Seq<bool>>,
    pub dirty: FfVsDirty,
}

/// The state after the material was set.
pub open spec fn material_set(v: FfStateView, m: D3DMATERIAL9) -> FfStateView {
    FfStateView { material: m, dirty: FfVsDirty { material: true, ..v.dirty }, ..v }
}

/// The state of the fixed-function pipeline.
pub struct FfState {
    view: D3DMATRIX,
    projection: D3DMATRIX,
    world_palette: [D3DMATRIX; 256],
    world_palette_high_water: u16,
    texture_transforms: [D3DMATRIX; 8],
    material: D3DMATERIAL9,
    lights: [D3DLIGHT9; 8],
    light_enabled: [bool; 8],
    light_defined: [bool; 8],
    overflow_lights: BTreeMap<u32, LightSlot>,
    texture_stage_states: [[u32; 33]; 8],
    tss_warn_fired: [[bool; 33]; 8],
    ff_vs_dirty: FfVsDirty,
}

/// Whether a transform is one that is kept.
pub open spec fn is_transform(state: u32) -> bool {
    state == D3DTS_VIEW || state == D3DTS_PROJECTION || D3DTS_TEXTURE0 <= state <= D3DTS_TEXTURE7
        || 256 <= state <= 511
}

impl FfState {
    spec fn transform_spec(self, state: u32) -> D3DMATRIX {
        if state == D3DTS_VIEW {
            self.view
        } else if state == D3DTS_PROJECTION {
            self.projection
        } else if D3DTS_TEXTURE0 <= state <= D3DTS_TEXTURE7 {
            self.texture_transforms@[state - D3DTS_TEXTURE0]
        } else {
            self.world_palette@[state - 256]
        }
    }

    spec fn has_light(self, i: u32) -> bool {
        if i < 8 {
            self.light_defined@[i as int]
        } else {
            self.overflow_lights@.contains_key(i)
        }
    }

    spec fn slot(self, i: u32) -> LightSlot {
        if i < 8 {
            LightSlot { light: self.lights@[i as int], enabled: self.light_enabled@[i as int] }
        } else {
            self.overflow_lights@[i]
        }
    }

    /// What holds of every state that can be reached.
    pub closed spec fn wf(&self) -> bool {
        &&& self.world_palette_high_water <= 255
        &&& forall|i: int|
            0 <= i < 8 && !#[trigger] self.light_defined@[i] ==> self.lights@[i]
                == D3DLIGHT9::initial_spec() && !self.light_enabled@[i]
        &&& forall|k: u32| #[trigger] self.overflow_lights@.contains_key(k) ==> k >= 8
    }
}

impl View for FfState {
    type V = FfStateView;

    closed spec fn view(&self) -> FfStateView {
        FfStateView {
            transforms: Map::new(|s: u32| is_transform(s), |s: u32| self.transform_spec(s)),
            palette_used: self.world_palette_high_water + 1,
            material: self.material,
            lights: Map::new(|i: u32| self.has_light(i), |i: u32| self.slot(i)),
            stages: Seq::new(8, |s: int| self.texture_stage_states@[s]@),
            warned: Seq::new(8, |s: int| self.tss_warn_fired@[s]@),
            dirty: self.ff_vs_dirty,
        }
    }
}

impl FfState {
    pub(crate) proof fn view_is_complete(&self)
        ensures
            self@.stages.len() == 8,
            forall|i: int| 0 <= i < 8 ==> (#[trigger] self@.stages[i]).len() == 33,
            forall|k: u32| #[trigger] self@.transforms.contains_key(k) <==> is_transform(k),
    {
    }
}

/// Whether a state is the one that the pipeline starts in.
pub open spec fn is_initial(v: FfStateView) -> bool {
    &&& forall|s: u32|
        #[trigger] v.transforms.contains_key(s) <==> is_transform(s)
    &&& forall|s: u32| is_transform(s) ==> (#[trigger] v.transforms[s]).is_identity()
    &&& v.palette_used == 1
    &&& v.material == D3DMATERIAL9::initial_spec()
    &&& v.lights == Map::<u32, LightSlot>::empty()
    &&& v.stages.len() == 8
    &&& forall|s: int, t: int|
        0 <= s < 8 && 0 <= t < 33 ==> #[trigger] v.stages[s][t] == tss_default(s, t)
    &&& forall|s: int, t: int| 0 <= s < 8 && 0 <= t < 33 ==> !#[trigger] v.warned[s][t]
    &&& v.dirty == FfVsDirty::all_spec()
}

fn default_stage(stage: usize) -> (r: [u32; 33])
    requires
        stage < 8,
    ensures
        forall|t: int| 0 <= t < 33 ==> #[trigger] r@[t] == tss_default(stage as int, t),
{
    let mut r: [u32; 33] = [0; 33];
    let mut t: usize = 0;
    while t < 33
        invariant
            t <= 33,
            stage < 8,
            forall|u: int| 0 <= u < t ==> #[trigger] r@[u] == tss_default(stage as int, u),
        decreases 33 - t,
    {
        r[t] = texture_stage_state_default(stage, t);
        t += 1;
    }
    r
}

impl FfState {
    /// The state that the pipeline starts in.
    pub fn new() -> (r: FfState)
        ensures
            r.wf(),
            is_initial(r@),
    {
        let unit: D3DMATRIX = D3DMATRIX::identity();
        let r: FfState = FfState {
            view: unit,
            projection: unit,
            world_palette: [unit; 256],
            world_palette_high_water: 0,
            texture_transforms: [unit; 8],
            material: D3DMATERIAL9::default(),
            lights: [D3DLIGHT9::default(); 8],
            light_enabled: [false; 8],
            light_defined: [false; 8],
            overflow_lights: BTreeMap::new(),
            texture_stage_states: [
                default_stage(0),
                default_stage(1),
                default_stage(2),
                default_stage(3),
                default_stage(4),
                default_stage(5),
                default_stage(6),
                default_stage(7),
            ],
            tss_warn_fired: [[false; 33]; 8],
            ff_vs_dirty: FfVsDirty::all(),
        };
        assert(r@.lights =~= Map::<u32, LightSlot>::empty());
        r
    }

    /// Marks sections of the vertex constants as changed.
    pub fn mark_ff_vs_dirty(&mut self, bits: FfVsDirty)
        requires
            old(self).wf(),
        ensures
            final(self).wf(),
            final(self)@ == (FfStateView { dirty: old(self)@.dirty.union_spec(bits), ..old(self)@ }),
    {
        self.ff_vs_dirty = self.ff_vs_dirty.union(bits);
        assert(self@ =~= (FfStateView { dirty: old(self)@.dirty.union_spec(bits), ..old(self)@ }));
    }

    /// Gives the changed sections and marks none.
    pub fn take_ff_vs_dirty(&mut self) -> (r: FfVsDirty)
        requires
            old(self).wf(),
        ensures
            final(self).wf(),
            r == old(self)@.dirty,
            final(self)@ == (FfStateView { dirty: FfVsDirty::empty_spec(), ..old(self)@ }),
    {
        let bits: FfVsDirty = self.ff_vs_dirty;
        self.ff_vs_dirty = FfVsDirty::empty();
        assert(self@ =~= (FfStateView { dirty: FfVsDirty::empty_spec(), ..old(self)@ }));
        bits
    }

    /// The material.
    pub fn material(&self) -> (r: &D3DMATERIAL9)
        ensures
            *r == self@.material,
    {
        &self.material
    }

    /// Sets the material.
    pub fn set_material(&mut self, m: &D3DMATERIAL9)
        requires
            old(self).wf(),
        ensures
            final(self).wf(),
            final(self)@ == material_set(old(self)@, *m),
    {
        self.material = *m;
        self.ff_vs_dirty.material = true;
        assert(self@ =~= material_set(old(self)@, *m));
    }
}

impl Default for FfState {
    fn default() -> (r: FfState)
        ensures
            r.wf(),
            is_initial(r@),
    {
        FfState::new()
    }
}

} // verus!
