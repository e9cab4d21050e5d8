//! Lights.

use super::{FfState, FfStateView, FfVsDirty, LightSlot};
use crate::bits::{bit8, with_bit8, zero_has_no_bits};
use crate::d3d9::{D3DCOLORVALUE, D3DLIGHT9, D3DLIGHT_DIRECTIONAL, D3DLIGHT_SPOT, ONE};
use std::collections::BTreeMap;
use vstd::prelude::*;

verus! {

/// The light that a slot gets when it is switched before it was set: the initial one,
/// in white.
pub open spec fn enable_default_light_spec() -> D3DLIGHT9 {
    D3DLIGHT9 {
        diffuse: D3DCOLORVALUE { r: ONE, g: ONE, b: ONE, a: 0 },
        ..D3DLIGHT9::initial_spec()
    }
}

/// The state after a light was set. A light that was not there before is off.
pub open spec fn light_set(v: FfStateView, i: u32, light: D3DLIGHT9) -> FfStateView {
    FfStateView {
        lights: v.lights.insert(
            i,
            LightSlot {
                light,
                enabled: v.lights.contains_key(i) && v.lights[i].enabled,
            },
        ),
        dirty: FfVsDirty { lights: true, ..v.dirty },
        ..v
    }
}

/// The state after a light was switched. A light that was not there before is made.
pub open spec fn light_switched(v: FfStateView, i: u32, enabled: bool) -> FfStateView {
    FfStateView {
        lights: v.lights.insert(
            i,
            LightSlot {
                light: if v.lights.contains_key(i) {
                    v.lights[i].light
                } else {
                    enable_default_light_spec()
                },
                enabled,
            },
        ),
        dirty: FfVsDirty { lights: true, ..v.dirty },
        ..v
    }
}

/// Whether a light shines: it is on and has a type.
pub open spec fn shines(lights: Map<u32, LightSlot>, i: u32) -> bool {
    lights.contains_key(i) && lights[i].enabled && lights[i].light.type_ != 0
}

/// Whether `s` lists the indices of the first eight lights that shine, or of all if
/// there are fewer, in ascending order.
pub open spec fn lists_shining(lights: Map<u32, LightSlot>, s: Seq<u32>) -> bool {
    &&& s.len() <= 8
    &&& forall|i: int, j: int| 0 <= i < j < s.len() ==> #[trigger] s[i] < #[trigger] s[j]
    &&& forall|i: int| 0 <= i < s.len() ==> shines(lights, #[trigger] s[i])
    &&& forall|k: u32|
        #[trigger] shines(lights, k) ==> s.contains(k) || (s.len() == 8 && s[7] < k)
}

/// The indices of the first eight lights that shine, or of all if there are fewer, in
/// ascending order.
pub open spec fn shining(lights: Map<u32, LightSlot>) -> Seq<u32> {
    choose|s: Seq<u32>| lists_shining(lights, s)
}

/// There is a list of the lights that shine.
pub proof fn there_is_a_shining_list(lights: Map<u32, LightSlot>)
    ensures
        lists_shining(lights, shining(lights)),
{
    let s = shining_below(lights, 0x1_0000_0000);
    assert(lists_shining(lights, s));
}

proof fn shining_below(lights: Map<u32, LightSlot>, n: int) -> (s: Seq<u32>)
    requires
        0 <= n <= 0x1_0000_0000,
    ensures
        s.len() <= 8,
        forall|i: int, j: int| 0 <= i < j < s.len() ==> #[trigger] s[i] < #[trigger] s[j],
        forall|i: int| 0 <= i < s.len() ==> shines(lights, #[trigger] s[i]) && s[i] < n,
        forall|k: u32|
            k < n && #[trigger] shines(lights, k) ==> s.contains(k) || (s.len() == 8 && s[7] < k),
    decreases n,
{
    if n == 0 {
        Seq::empty()
    } else {
        let t = shining_below(lights, n - 1);
        let last = (n - 1) as u32;
        if shines(lights, last) && t.len() < 8 {
            let s = t.push(last);
            assert(s[t.len() as int] == last);
            assert forall|k: u32| k < n && #[trigger] shines(lights, k) implies s.contains(k) by {
                if k != last {
                    assert(t.contains(k));
                    let i = choose|i: int| 0 <= i < t.len() && t[i] == k;
                    assert(s[i] == k);
                }
            }
            s
        } else {
            t
        }
    }
}

/// There is only one list of the lights that shine.
pub proof fn shining_lists_are_equal(lights: Map<u32, LightSlot>, a: Seq<u32>, b: Seq<u32>)
    requires
        lists_shining(lights, a),
        lists_shining(lights, b),
    ensures
        a == b,
{
    shining_lists_agree(lights, a, b, 8);
    if a.len() < b.len() {
        shorter_list_is_complete(lights, a, b);
    }
    if b.len() < a.len() {
        shining_lists_agree(lights, b, a, 8);
        shorter_list_is_complete(lights, b, a);
    }
    assert(a =~= b);
}

proof fn shorter_list_is_complete(lights: Map<u32, LightSlot>, a: Seq<u32>, b: Seq<u32>)
    requires
        lists_shining(lights, a),
        lists_shining(lights, b),
        forall|i: int| 0 <= i < a.len() && i < b.len() ==> a[i] == b[i],
    ensures
        a.len() >= b.len(),
{
    if a.len() < b.len() {
        let k = b[a.len() as int];
        assert(shines(lights, k));
        assert(a.contains(k));
        let j = choose|j: int| 0 <= j < a.len() && a[j] == k;
        assert(b[j] < b[a.len() as int]);
    }
}

proof fn shining_lists_agree(lights: Map<u32, LightSlot>, a: Seq<u32>, b: Seq<u32>, n: int)
    requires
        lists_shining(lights, a),
        lists_shining(lights, b),
        0 <= n,
    ensures
        forall|i: int| 0 <= i < n && i < a.len() && i < b.len() ==> a[i] == b[i],
    decreases n,
{
    if n > 0 {
        shining_lists_agree(lights, a, b, n - 1);
        let i = n - 1;
        if i < a.len() && i < b.len() {
            entry_is_not_less(lights, a, b, i);
            entry_is_not_less(lights, b, a, i);
        }
    }
}

proof fn entry_is_not_less(lights: Map<u32, LightSlot>, a: Seq<u32>, b: Seq<u32>, i: int)
    requires
        lists_shining(lights, a),
        lists_shining(lights, b),
        0 <= i < a.len(),
        i < b.len(),
        forall|j: int| 0 <= j < i ==> a[j] == b[j],
    ensures
        a[i] >= b[i],
{
    if a[i] < b[i] {
        assert(shines(lights, a[i]));
        if b.contains(a[i]) {
            let j = choose|j: int| 0 <= j < b.len() && b[j] == a[i];
            if j < i {
                assert(a[j] < a[i]);
            } else if j > i {
                assert(b[i] < b[j]);
            }
        } else if i < 7 {
            assert(b[i] < b[7]);
        }
    }
}

fn pack_bits(bits: &[bool; 8]) -> (r: u8)
    ensures
        forall|i: int| 0 <= i < 8 ==> #[trigger] bit8(r, i) == bits@[i],
{
    let mut mask: u8 = 0;
    let mut i: u32 = 0;
    proof {
        zero_has_no_bits();
    }
    while i < 8
        invariant
            i <= 8,
            forall|j: int| 0 <= j < 8 ==> #[trigger] bit8(mask, j) == (j < i && bits@[j]),
        decreases 8 - i,
    {
        if bits[i as usize] {
            mask = with_bit8(mask, i);
        }
        i += 1;
    }
    mask
}

fn enable_default_light() -> (r: D3DLIGHT9)
    ensures
        r == enable_default_light_spec(),
{
    let mut light: D3DLIGHT9 = D3DLIGHT9::default();
    light.diffuse = D3DCOLORVALUE { r: ONE, g: ONE, b: ONE, a: 0 };
    light
}

fn least_shining_overflow(m: &BTreeMap<u32, LightSlot>, from: u32) -> (r: Option<u32>)
    ensures
        match r {
            Some(k) => shines(m@, k) && k >= from && forall|j: u32|
                #[trigger] shines(m@, j) && j >= from ==> k <= j,
            None => forall|j: u32| #[trigger] shines(m@, j) ==> j < from,
        },
{
    let mut best: Option<u32> = None;
    for k in it: m.keys()
        invariant
            forall|i: int|
                0 <= i < it.index() && *(#[trigger] it.seq()[i]) >= from && shines(
                    m@,
                    *it.seq()[i],
                ) ==> best is Some && best->0 <= *it.seq()[i],
            best matches Some(b) ==> shines(m@, b) && b >= from,
            it.seq().unref().to_set() == m@.dom(),
    {
        let key: u32 = *k;
        assert(it.seq().unref()[it.index()] == key);
        assert(it.seq().unref().to_set().contains(key));
        let lit: bool = match m.get(&key) {
            Some(slot) => slot.enabled && slot.light.type_ != 0,
            None => false,
        };
        if key >= from && lit {
            best = match best {
                Some(b) => if key < b {
                    Some(key)
                } else {
                    Some(b)
                },
                None => Some(key),
            };
        }
    }
    proof {
        let ks = vstd::std_specs::iter::IteratorSpec::remaining(&m.keys());
        assert forall|j: u32| #[trigger] shines(m@, j) && j >= from implies best is Some && best->0
            <= j by {
            assert(ks.unref().to_set().contains(j));
            let i = choose|i: int| 0 <= i < ks.unref().len() && ks.unref()[i] == j;
            assert(*ks[i] == j);
        }
    }
    best
}

impl FfState {
    /// The light in one of the first eight slots; the initial one where none was set.
    pub fn light(&self, index: usize) -> (r: &D3DLIGHT9)
        requires
            self.wf(),
            index < 8,
        ensures
            *r == (if self@.lights.contains_key(index as u32) {
                self@.lights[index as u32].light
            } else {
                D3DLIGHT9::initial_spec()
            }),
    {
        &self.lights[index]
    }

    /// Sets the light in one of the first eight slots.
    pub fn set_light(&mut self, index: usize, light: &D3DLIGHT9)
        requires
            old(self).wf(),
            index < 8,
        ensures
            final(self).wf(),
            final(self)@ == light_set(old(self)@, index as u32, *light),
    {
        self.lights[index] = *light;
        self.light_defined[index] = true;
        self.ff_vs_dirty.lights = true;
        assert(self@.lights =~= light_set(old(self)@, index as u32, *light).lights);
        assert(self@ =~= light_set(old(self)@, index as u32, *light));
    }

    /// The lights in the first eight slots that shine.
    pub fn light_active_mask(&self) -> (r: u8)
        requires
            self.wf(),
        ensures
            forall|i: int| 0 <= i < 8 ==> #[trigger] bit8(r, i) == shines(self@.lights, i as u32),
    {
        let mut bits: [bool; 8] = [false; 8];
        let mut i: usize = 0;
        while i < 8
            invariant
                self.wf(),
                i <= 8,
                forall|j: int|
                    0 <= j < i ==> #[trigger] bits@[j] == shines(self@.lights, j as u32),
            decreases 8 - i,
        {
            bits[i] = self.light_enabled[i] && self.lights[i].type_ != 0;
            i += 1;
        }
        pack_bits(&bits)
    }

    fn type_mask(&self, type_: u32) -> (r: u8)
        ensures
            forall|i: int|
                0 <= i < 8 ==> #[trigger] bit8(r, i) == (self@.lights.contains_key(i as u32)
                    && self@.lights[i as u32].light.type_ == type_),
    {
        let mut bits: [bool; 8] = [false; 8];
        let mut i: usize = 0;
        while i < 8
            invariant
                i <= 8,
                forall|j: int|
                    0 <= j < i ==> #[trigger] bits@[j] == (self@.lights.contains_key(j as u32)
                        && self@.lights[j as u32].light.type_ == type_),
            decreases 8 - i,
        {
            bits[i] = self.light_defined[i] && self.lights[i].type_ == type_;
            i += 1;
        }
        pack_bits(&bits)
    }

    /// The lights in the first eight slots that are directional.
    pub fn light_directional_mask(&self) -> (r: u8)
        ensures
            forall|i: int|
                0 <= i < 8 ==> #[trigger] bit8(r, i) == (self@.lights.contains_key(i as u32)
                    && self@.lights[i as u32].light.type_ == D3DLIGHT_DIRECTIONAL),
    {
        self.type_mask(D3DLIGHT_DIRECTIONAL)
    }

    /// The lights in the first eight slots that are spots.
    pub fn light_spot_mask(&self) -> (r: u8)
        ensures
            forall|i: int|
                0 <= i < 8 ==> #[trigger] bit8(r, i) == (self@.lights.contains_key(i as u32)
                    && self@.lights[i as u32].light.type_ == D3DLIGHT_SPOT),
    {
        self.type_mask(D3DLIGHT_SPOT)
    }

    /// Whether the light in one of the first eight slots is on.
    pub fn light_enabled(&self, index: usize) -> (r: bool)
        requires
            self.wf(),
            index < 8,
        ensures
            r == (self@.lights.contains_key(index as u32) && self@.lights[index as u32].enabled),
    {
        self.light_enabled[index]
    }

    /// Whether one of the first eight slots has a light.
    pub fn light_defined(&self, index: usize) -> (r: bool)
        requires
            index < 8,
        ensures
            r == self@.lights.contains_key(index as u32),
    {
        self.light_defined[index]
    }

    /// Switches the light in one of the first eight slots.
    pub fn set_light_enabled(&mut self, index: usize, enabled: bool)
        requires
            old(self).wf(),
            index < 8,
        ensures
            final(self).wf(),
            final(self)@ == light_switched(old(self)@, index as u32, enabled),
    {
        if !self.light_defined[index] {
            self.lights[index] = enable_default_light();
            self.light_defined[index] = true;
        }
        self.light_enabled[index] = enabled;
        self.ff_vs_dirty.lights = true;
        assert(self@.lights =~= light_switched(old(self)@, index as u32, enabled).lights);
        assert(self@ =~= light_switched(old(self)@, index as u32, enabled));
    }

    /// Sets the light with an index.
    pub fn set_light_at(&mut self, index: u32, light: &D3DLIGHT9)
        requires
            old(self).wf(),
        ensures
            final(self).wf(),
            final(self)@ == light_set(old(self)@, index, *light),
    {
        if index < 8 {
            self.set_light(index as usize, light);
        } else {
            let enabled: bool = match self.overflow_lights.get(&index) {
                Some(slot) => slot.enabled,
                None => false,
            };
            self.overflow_lights.insert(index, LightSlot { light: *light, enabled });
            self.ff_vs_dirty.lights = true;
            assert(self@.lights =~= light_set(old(self)@, index, *light).lights);
            assert(self@ =~= light_set(old(self)@, index, *light));
        }
    }

    /// The light with an index; none where none was set or switched.
    pub fn get_light_at(&self, index: u32) -> (r: Option<D3DLIGHT9>)
        requires
            self.wf(),
        ensures
            r == (if self@.lights.contains_key(index) {
                Some(self@.lights[index].light)
            } else {
                None
            }),
    {
        if index < 8 {
            if self.light_defined[index as usize] {
                Some(self.lights[index as usize])
            } else {
                None
            }
        } else {
            match self.overflow_lights.get(&index) {
                Some(slot) => Some(slot.light),
                None => None,
            }
        }
    }

    /// Switches the light with an index.
    pub fn set_light_enabled_at(&mut self, index: u32, enabled: bool)
        requires
            old(self).wf(),
        ensures
            final(self).wf(),
            final(self)@ == light_switched(old(self)@, index, enabled),
    {
        if index < 8 {
            self.set_light_enabled(index as usize, enabled);
        } else {
            let light: D3DLIGHT9 = match self.overflow_lights.get(&index) {
                Some(slot) => slot.light,
                None => enable_default_light(),
            };
            self.overflow_lights.insert(index, LightSlot { light, enabled });
            self.ff_vs_dirty.lights = true;
            assert(self@.lights =~= light_switched(old(self)@, index, enabled).lights);
            assert(self@ =~= light_switched(old(self)@, index, enabled));
        }
    }

    /// Whether the light with an index is on.
    pub fn is_light_enabled_at(&self, index: u32) -> (r: bool)
        requires
            self.wf(),
        ensures
            r == (self@.lights.contains_key(index) && self@.lights[index].enabled),
    {
        if index < 8 {
            self.light_enabled[index as usize]
        } else {
            match self.overflow_lights.get(&index) {
                Some(slot) => slot.enabled,
                None => false,
            }
        }
    }

    /// Whether a light with an index was set or switched.
    pub fn is_light_defined_at(&self, index: u32) -> (r: bool)
        requires
            self.wf(),
        ensures
            r == self@.lights.contains_key(index),
    {
        if index < 8 {
            self.light_defined[index as usize]
        } else {
            self.overflow_lights.contains_key(&index)
        }
    }

    fn next_shining(&self, from: u32) -> (r: Option<u32>)
        requires
            self.wf(),
        ensures
            match r {
                Some(k) => shines(self@.lights, k) && k >= from && forall|j: u32|
                    #[trigger] shines(self@.lights, j) && j >= from ==> k <= j,
                None => forall|j: u32| #[trigger] shines(self@.lights, j) ==> j < from,
            },
    {
        let mut i: u32 = from;
        while i < 8
            invariant
                self.wf(),
                from <= i,
                i <= 8 || i == from,
                forall|j: u32| from <= j < i && j < 8 ==> !#[trigger] shines(self@.lights, j),
            decreases 8 - i,
        {
            if self.light_enabled[i as usize] && self.lights[i as usize].type_ != 0 {
                assert(shines(self@.lights, i));
                return Some(i);
            }
            i += 1;
        }
        let r: Option<u32> = least_shining_overflow(&self.overflow_lights, i);
        proof {
            assert forall|j: u32| j >= from && #[trigger] shines(self@.lights, j) implies j >= 8
                && shines(self.overflow_lights@, j) by {}
            if let Some(k) = r {
                assert(self.overflow_lights@.contains_key(k));
                assert(k >= 8);
                assert(shines(self@.lights, k));
                assert forall|j: u32| #[trigger] shines(self@.lights, j) && j >= from implies k
                    <= j by {
                    assert(shines(self.overflow_lights@, j));
                }
            } else {
                assert forall|j: u32| #[trigger] shines(self@.lights, j) implies j < from by {
                    if j >= from {
                        assert(shines(self.overflow_lights@, j));
                    }
                }
            }
        }
        r
    }

    /// The lights that shine on a vertex, in the order of their indices: the first eight.
    pub fn active_lights(&self) -> (r: Vec<D3DLIGHT9>)
        requires
            self.wf(),
        ensures
            r@ == shining(self@.lights).map_values(|i: u32| self@.lights[i].light),
    {
        let mut out: Vec<D3DLIGHT9> = Vec::new();
        let ghost mut s = Seq::<u32>::empty();
        let mut from: u32 = 0;
        let mut more: bool = true;
        while more && out.len() < 8
            invariant
                self.wf(),
                out@.len() == s.len(),
                s.len() <= 8,
                forall|i: int|
                    0 <= i < s.len() ==> #[trigger] out@[i] == self@.lights[s[i]].light,
                forall|i: int, j: int|
                    0 <= i < j < s.len() ==> #[trigger] s[i] < #[trigger] s[j],
                forall|i: int| 0 <= i < s.len() ==> shines(self@.lights, #[trigger] s[i]),
                more ==> forall|i: int| 0 <= i < s.len() ==> #[trigger] s[i] < from,
                forall|k: u32|
                    #[trigger] shines(self@.lights, k) ==> s.contains(k) || (more && k >= from),
            decreases
                    8 - out@.len(),
                    (if more {
                        1int
                    } else {
                        0int
                    }),
        {
            match self.next_shining(from) {
                Some(k) => {
                    let light: D3DLIGHT9 = match self.get_light_at(k) {
                        Some(light) => light,
                        None => D3DLIGHT9::default(),
                    };
                    out.push(light);
                    let ghost before = s;
                    proof {
                        s = s.push(k);
                        assert(s[before.len() as int] == k);
                        assert forall|j: u32| #[trigger] before.contains(j) implies s.contains(
                            j,
                        ) by {
                            let i = choose|i: int| 0 <= i < before.len() && before[i] == j;
                            assert(s[i] == j);
                        }
                    }
                    if k == u32::MAX {
                        more = false;
                    } else {
                        from = k + 1;
                    }
                },
                None => {
                    more = false;
                },
            }
        }
        proof {
            assert(lists_shining(self@.lights, s));
            shining_lists_are_equal(self@.lights, s, shining(self@.lights));
            assert(out@ =~= shining(self@.lights).map_values(|i: u32| self@.lights[i].light));
        }
        out
    }
}

} // verus!
