//! Snapshots of the state.

use super::stages::transforms_coords;
use super::{is_transform, FfState, FfStateView, FfVsDirty, LightSlot};
use crate::d3d9::{
    StateBlockType, D3DLIGHT9, D3DMATERIAL9, D3DMATRIX, D3DTS_PROJECTION, D3DTS_TEXTURE0,
    D3DTSS_TEXTURETRANSFORMFLAGS, D3DTS_TEXTURE7, D3DTS_VIEW,
};
use vstd::prelude::*;

verus! {

/// What a snapshot holds.
#[verifier::ext_equal]
pub struct SnapshotView {
    pub transforms: Map<u32, D3DMATRIX>,
    pub palette_used: int,
    pub material: D3DMATERIAL9,
    /// The lights among the first eight that were set or switched.
    pub lights: Map<u32, LightSlot>,
    pub stages: Seq<Seq<u32>>,
}

/// The lights among the first eight.
pub open spec fn fast_lights(lights: Map<u32, LightSlot>) -> Map<u32, LightSlot> {
    lights.restrict(Set::new(|i: u32| i < 8))
}

/// The lights with the first eight replaced.
pub open spec fn with_fast_lights(
    lights: Map<u32, LightSlot>,
    fast: Map<u32, LightSlot>,
) -> Map<u32, LightSlot> {
    lights.restrict(Set::new(|i: u32| i >= 8)).union_prefer_right(fast)
}

/// What a snapshot of a state holds.
pub open spec fn captured(v: FfStateView) -> SnapshotView {
    SnapshotView {
        transforms: v.transforms,
        palette_used: v.palette_used,
        material: v.material,
        lights: fast_lights(v.lights),
        stages: v.stages,
    }
}

/// The stages with the states that a block holds taken from a snapshot.
pub open spec fn stages_restored(
    from: Seq<Seq<u32>>,
    to: Seq<Seq<u32>>,
    block: StateBlockType,
) -> Seq<Seq<u32>> {
    Seq::new(
        8,
        |s: int|
            Seq::new(
                33,
                |t: int|
                    if block.includes_tss_spec(t) {
                        from[s][t]
                    } else {
                        to[s][t]
                    },
            ),
    )
}

/// Whether taking a block from a snapshot switches the transform of some stage's
/// coordinates on or off.
pub open spec fn switches_coords(
    from: Seq<Seq<u32>>,
    to: Seq<Seq<u32>>,
    block: StateBlockType,
) -> bool {
    exists|i: int|
        0 <= i < 8 && #[trigger] transforms_coords(stages_restored(from, to, block), i)
            != transforms_coords(to, i)
}

/// The changed sections after what a block holds was taken from a snapshot: those of all
/// that was written.
pub open spec fn restored_marks(
    v: FfStateView,
    s: SnapshotView,
    block: StateBlockType,
) -> FfVsDirty {
    let all = block is All;
    FfVsDirty {
        wv: v.dirty.wv || all,
        proj: v.dirty.proj || all,
        material: v.dirty.material || all,
        palette: v.dirty.palette || all,
        lights: v.dirty.lights || !(block is Pixel),
        tt: v.dirty.tt || all || switches_coords(s.stages, v.stages, block),
        ..v.dirty
    }
}

/// The state after what a block holds was taken from a snapshot: everything, or the
/// lights and some states of the stages, or some states of the stages alone.
pub open spec fn restored(v: FfStateView, s: SnapshotView, block: StateBlockType) -> FfStateView {
    let all = block is All;
    FfStateView {
        transforms: if all {
            s.transforms
        } else {
            v.transforms
        },
        palette_used: if all {
            s.palette_used
        } else {
            v.palette_used
        },
        material: if all {
            s.material
        } else {
            v.material
        },
        lights: if block is Pixel {
            v.lights
        } else {
            with_fast_lights(v.lights, s.lights)
        },
        stages: stages_restored(s.stages, v.stages, block),
        warned: v.warned,
        dirty: restored_marks(v, s, block),
    }
}

/// A copy of the state that can be gone back to.
pub struct FfStateSnapshot {
    view: D3DMATRIX,
    projection: D3DMATRIX,
    world_palette: [D3DMATRIX; 256],
    world_palette_high_water: u16,
    texture_transforms: [D3DMATRIX; 8],
    material: D3DMATERIAL9,
    lights: [D3DLIGHT9; 8],
    light_enabled: [bool; 8],
    light_defined: [bool; 8],
    texture_stage_states: [[u32; 33]; 8],
}

impl FfStateSnapshot {
    spec fn transform_spec(self, state: u32) -> D3DMATRIX {
        if state == D3DTS_VIEW {
            self.view
        } else if state == D3DTS_PROJECTION {
            self.projection
        } else if D3DTS_TEXTURE0 <= state <= D3DTS_TEXTURE7 {
            self.texture_transforms@[state - D3DTS_TEXTURE0]
        } else {
            self.world_palette@[state - 256]
        }
    }

    #[verifier::type_invariant]
    spec fn wf(self) -> bool {
        &&& self.world_palette_high_water <= 255
        &&& forall|i: int|
            0 <= i < 8 && !#[trigger] self.light_defined@[i] ==> self.lights@[i]
                == D3DLIGHT9::initial_spec() && !self.light_enabled@[i]
    }
}

impl View for FfStateSnapshot {
    type V = SnapshotView;

    closed spec fn view(&self) -> SnapshotView {
        SnapshotView {
            transforms: Map::new(|s: u32| is_transform(s), |s: u32| self.transform_spec(s)),
            palette_used: self.world_palette_high_water + 1,
            material: self.material,
            lights: Map::new(
                |i: u32| i < 8 && self.light_defined@[i as int],
                |i: u32|
                    LightSlot {
                        light: self.lights@[i as int],
                        enabled: self.light_enabled@[i as int],
                    },
            ),
            stages: Seq::new(8, |s: int| self.texture_stage_states@[s]@),
        }
    }
}

impl FfStateSnapshot {
    /// A snapshot of a state.
    pub fn from(state: &FfState) -> (r: FfStateSnapshot)
        requires
            state.wf(),
        ensures
            r@ == captured(state@),
    {
        let r: FfStateSnapshot = FfStateSnapshot {
            view: state.view,
            projection: state.projection,
            world_palette: state.world_palette,
            world_palette_high_water: state.world_palette_high_water,
            texture_transforms: state.texture_transforms,
            material: state.material,
            lights: state.lights,
            light_enabled: state.light_enabled,
            light_defined: state.light_defined,
            texture_stage_states: state.texture_stage_states,
        };
        assert(r@.transforms =~= state@.transforms);
        assert(r@.lights =~= fast_lights(state@.lights));
        assert(r@ =~= captured(state@));
        r
    }

    /// Goes back to a snapshot.
    pub fn restore_into(&self, ff: &mut FfState)
        requires
            old(ff).wf(),
        ensures
            final(ff).wf(),
            final(ff)@ == restored(old(ff)@, self@, StateBlockType::All),
    {
        self.restore_filtered(ff, StateBlockType::All);
    }

    fn restore_transforms(&self, ff: &mut FfState)
        requires
            old(ff).wf(),
        ensures
            final(ff).wf(),
            final(ff)@ == (FfStateView {
                transforms: self@.transforms,
                palette_used: self@.palette_used,
                material: self@.material,
                dirty: FfVsDirty {
                    wv: true,
                    proj: true,
                    tt: true,
                    palette: true,
                    material: true,
                    ..old(ff)@.dirty
                },
                ..old(ff)@
            }),
    {
        proof {
            use_type_invariant(self);
        }
        ff.view = self.view;
        ff.projection = self.projection;
        ff.world_palette = self.world_palette;
        ff.world_palette_high_water = self.world_palette_high_water;
        ff.texture_transforms = self.texture_transforms;
        ff.material = self.material;
        ff.ff_vs_dirty.wv = true;
        ff.ff_vs_dirty.proj = true;
        ff.ff_vs_dirty.tt = true;
        ff.ff_vs_dirty.palette = true;
        ff.ff_vs_dirty.material = true;
        assert(ff@.transforms =~= self@.transforms);
        assert(ff@.lights =~= old(ff)@.lights);
        assert(ff@ =~= (FfStateView {
            transforms: self@.transforms,
            palette_used: self@.palette_used,
            material: self@.material,
            dirty: ff@.dirty,
            ..old(ff)@
        }));
    }

    fn restore_lights(&self, ff: &mut FfState)
        requires
            old(ff).wf(),
        ensures
            final(ff).wf(),
            final(ff)@ == (FfStateView {
                lights: with_fast_lights(old(ff)@.lights, self@.lights),
                dirty: FfVsDirty { lights: true, ..old(ff)@.dirty },
                ..old(ff)@
            }),
    {
        proof {
            use_type_invariant(self);
        }
        ff.lights = self.lights;
        ff.light_enabled = self.light_enabled;
        ff.light_defined = self.light_defined;
        ff.ff_vs_dirty.lights = true;
        assert(ff@.transforms =~= old(ff)@.transforms);
        assert(ff@.lights =~= with_fast_lights(old(ff)@.lights, self@.lights));
        assert(ff@ =~= (FfStateView {
            lights: with_fast_lights(old(ff)@.lights, self@.lights),
            dirty: ff@.dirty,
            ..old(ff)@
        }));
    }

    fn restore_stages(&self, ff: &mut FfState, block_type: StateBlockType)
        requires
            old(ff).wf(),
        ensures
            final(ff).wf(),
            final(ff)@ == (FfStateView {
                stages: stages_restored(self@.stages, old(ff)@.stages, block_type),
                dirty: FfVsDirty {
                    tt: old(ff)@.dirty.tt || switches_coords(
                        self@.stages,
                        old(ff)@.stages,
                        block_type,
                    ),
                    ..old(ff)@.dirty
                },
                ..old(ff)@
            }),
    {
        let ghost target = stages_restored(self@.stages, ff@.stages, block_type);
        let ty: usize = D3DTSS_TEXTURETRANSFORMFLAGS as usize;
        let mut switched: bool = false;
        let mut s: usize = 0;
        while s < 8
            invariant
                s <= 8,
                ty == D3DTSS_TEXTURETRANSFORMFLAGS,
                switched == exists|i: int|
                    0 <= i < s && #[trigger] transforms_coords(target, i) != transforms_coords(
                        old(ff)@.stages,
                        i,
                    ),
                ff.wf(),
                old(ff).wf(),
                target == stages_restored(self@.stages, old(ff)@.stages, block_type),
                ff@ == (FfStateView { stages: ff@.stages, ..old(ff)@ }),
                ff@.stages.len() == 8,
                forall|i: int| 0 <= i < s ==> #[trigger] ff@.stages[i] == target[i],
                forall|i: int| s <= i < 8 ==> #[trigger] ff@.stages[i] == old(ff)@.stages[i],
            decreases 8 - s,
        {
            let mut row: [u32; 33] = ff.texture_stage_states[s];
            assert(row@ == ff@.stages[s as int]);
            let mut t: usize = 0;
            while t < 33
                invariant
                    t <= 33,
                    s < 8,
                    target == stages_restored(self@.stages, old(ff)@.stages, block_type),
                    forall|u: int| 0 <= u < t ==> #[trigger] row@[u] == target[s as int][u],
                    forall|u: int|
                        t <= u < 33 ==> #[trigger] row@[u] == old(ff)@.stages[s as int][u],
                decreases 33 - t,
            {
                if block_type.includes_tss(t as u32) {
                    row[t] = self.texture_stage_states[s][t];
                }
                t += 1;
            }
            let ghost before = *ff;
            let was: bool = ff.texture_stage_states[s][ty] != 0;
            let is: bool = row[ty] != 0;
            ff.texture_stage_states[s] = row;
            assert(row@ =~= target[s as int]);
            assert(was == transforms_coords(old(ff)@.stages, s as int));
            assert(is == transforms_coords(target, s as int));
            let ghost switched_before = switched;
            switched = switched || was != is;
            assert(switched == exists|i: int|
                0 <= i <= s && #[trigger] transforms_coords(target, i) != transforms_coords(
                    old(ff)@.stages,
                    i,
                )) by {
                if switched_before {
                    let i = choose|i: int|
                        0 <= i < s && #[trigger] transforms_coords(target, i)
                            != transforms_coords(old(ff)@.stages, i);
                    assert(transforms_coords(target, i) != transforms_coords(old(ff)@.stages, i));
                }
            }
            assert(ff@.transforms =~= before@.transforms);
            assert(ff@.lights =~= before@.lights);
            assert(ff@.warned =~= before@.warned);
            assert forall|i: int| 0 <= i < 8 && i != s implies #[trigger] ff@.stages[i]
                == before@.stages[i] by {}
            assert(ff@ =~= (FfStateView { stages: ff@.stages, ..old(ff)@ }));
            s += 1;
        }
        assert(ff@.stages =~= target);
        if switched {
            let ghost before = *ff;
            ff.ff_vs_dirty.tt = true;
            assert(ff@ =~= (FfStateView { dirty: ff@.dirty, ..before@ }));
        }
    }

    /// Goes back to the part of a snapshot that a block holds.
    pub fn restore_filtered(&self, ff: &mut FfState, block_type: StateBlockType)
        requires
            old(ff).wf(),
        ensures
            final(ff).wf(),
            final(ff)@ == restored(old(ff)@, self@, block_type),
    {
        if block_type == StateBlockType::All {
            self.restore_transforms(ff);
        }
        if block_type != StateBlockType::Pixel {
            self.restore_lights(ff);
        }
        self.restore_stages(ff, block_type);
        assert(ff@ =~= restored(old(ff)@, self@, block_type));
    }
}

/// Going back to a snapshot right after it was taken changes nothing but the marks of the
/// sections, whatever the block.
pub proof fn going_back_at_once_changes_nothing(v: FfStateView, block: StateBlockType)
    requires
        v.stages.len() == 8,
        forall|s: int| 0 <= s < 8 ==> (#[trigger] v.stages[s]).len() == 33,
    ensures
        restored(v, captured(v), block) == (FfStateView {
            dirty: restored_marks(v, captured(v), block),
            ..v
        }),
{
    assert(with_fast_lights(v.lights, fast_lights(v.lights)) =~= v.lights);
    let r = stages_restored(v.stages, v.stages, block);
    assert forall|s: int| 0 <= s < 8 implies r[s] == #[trigger] v.stages[s] by {
        assert(r[s] =~= v.stages[s]);
    }
    assert(r =~= v.stages);
    assert(restored(v, captured(v), block) =~= (FfStateView {
        dirty: restored_marks(v, captured(v), block),
        ..v
    }));
}

/// Going back to a snapshot undoes everything but what a snapshot does not hold: the
/// lights beyond the first eight, the warnings and the marks of the sections.
pub proof fn going_back_undoes_all_that_is_held(v: FfStateView, w: FfStateView)
    requires
        v.stages.len() == 8,
        forall|s: int| 0 <= s < 8 ==> (#[trigger] v.stages[s]).len() == 33,
    ensures
        captured(restored(w, captured(v), StateBlockType::All)) == captured(v),
{
    let r = restored(w, captured(v), StateBlockType::All);
    assert(fast_lights(with_fast_lights(w.lights, fast_lights(v.lights))) =~= fast_lights(
        v.lights,
    ));
    assert forall|s: int| 0 <= s < 8 implies r.stages[s] == #[trigger] v.stages[s] by {
        assert(r.stages[s] =~= v.stages[s]);
    }
    assert(r.stages =~= v.stages);
    assert(captured(r) =~= captured(v));
}

/// Going back to a snapshot takes no mark away, and marks the section of all that it
/// changes: the lights, the material, the transforms, the world matrices in use and which
/// stages transform their coordinates.
pub proof fn going_back_marks_what_it_changes(
    v: FfStateView,
    s: SnapshotView,
    block: StateBlockType,
    stage: int,
)
    requires
        0 <= stage < 8,
    ensures
        v.dirty.union_spec(restored(v, s, block).dirty) == restored(v, s, block).dirty,
        restored(v, s, block).lights != v.lights ==> restored(v, s, block).dirty.lights,
        restored(v, s, block).material != v.material ==> restored(v, s, block).dirty.material,
        restored(v, s, block).transforms != v.transforms ==> {
            let d = restored(v, s, block).dirty;
            d.wv && d.proj && d.tt && d.palette && d.lights
        },
        restored(v, s, block).palette_used != v.palette_used ==> restored(
            v,
            s,
            block,
        ).dirty.palette,
        transforms_coords(restored(v, s, block).stages, stage) != transforms_coords(
            v.stages,
            stage,
        ) ==> restored(v, s, block).dirty.tt,
{
}

} // verus!
