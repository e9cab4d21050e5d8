//! The per-frame counts about sampleable depth textures, and the size of the command vectors.

use super::model::PassStateView;
use super::state::command_capacity;
use super::PassState;
use crate::fx::{map_get, map_keys};
use crate::metal::Command;
use vstd::prelude::*;

verus! {

/// Whether a list is in strictly ascending order.
pub open spec fn ascending(s: Seq<u64>) -> bool {
    forall|i: int, j: int| 0 <= i < j < s.len() ==> s[i] < s[j]
}

/// A count in a map, zero where there is none.
pub open spec fn count_of(m: Map<u64, u32>, key: u64) -> u32 {
    if m.contains_key(key) {
        m[key]
    } else {
        0
    }
}

/// Puts a key into an ascending list, unless it is there.
fn insert_ascending(list: &mut Vec<u64>, key: u64)
    requires
        ascending(old(list)@),
    ensures
        ascending(final(list)@),
        forall|k: u64| #[trigger]
            final(list)@.contains(k) <==> old(list)@.contains(k) || k == key,
{
    let mut i: usize = 0;
    while i < list.len() && list[i] < key
        invariant
            list@ == old(list)@,
            i <= list@.len(),
            forall|j: int| 0 <= j < i ==> list@[j] < key,
        decreases list@.len() - i,
    {
        i += 1;
    }
    let ghost before = list@;
    if i < list.len() && list[i] == key {
        assert(list@[i as int] == key);
        return;
    }
    list.insert(i, key);
    proof {
        assert(list@ =~= before.insert(i as int, key));
        assert forall|k: u64| #[trigger] list@.contains(k) <==> before.contains(k) || k == key by {
            if before.contains(k) {
                let j = choose|j: int| 0 <= j < before.len() && before[j] == k;
                if j < i {
                    assert(list@[j] == k);
                } else {
                    assert(list@[j + 1] == k);
                }
            }
            if k == key {
                assert(list@[i as int] == k);
            }
            if list@.contains(k) {
                let j = choose|j: int| 0 <= j < list@.len() && list@[j] == k;
                if j < i {
                    assert(before[j] == k);
                } else if j > i {
                    assert(before[j - 1] == k);
                }
            }
        }
    }
}

fn insert_all(list: &mut Vec<u64>, keys: &Vec<u64>)
    requires
        ascending(old(list)@),
    ensures
        ascending(final(list)@),
        forall|k: u64| #[trigger]
            final(list)@.contains(k) <==> old(list)@.contains(k) || keys@.contains(k),
{
    let mut i: usize = 0;
    while i < keys.len()
        invariant
            i <= keys@.len(),
            ascending(list@),
            forall|k: u64| #[trigger]
                list@.contains(k) <==> old(list)@.contains(k) || keys@.take(i as int).contains(k),
        decreases keys@.len() - i,
    {
        insert_ascending(list, keys[i]);
        i += 1;
        proof {
            let a = keys@.take(i - 1);
            let b = keys@.take(i as int);
            assert(b =~= a.push(keys@[i - 1]));
            assert forall|k: u64| b.contains(k) <==> a.contains(k) || k == keys@[i - 1] by {
                if a.contains(k) {
                    let j = choose|j: int| 0 <= j < a.len() && a[j] == k;
                    assert(b[j] == k);
                }
                if k == keys@[i - 1] {
                    assert(b[i - 1] == k);
                }
                if b.contains(k) {
                    let j = choose|j: int| 0 <= j < b.len() && b[j] == k;
                    if j < i - 1 {
                        assert(a[j] == k);
                    }
                }
            }
        }
    }
    assert(keys@.take(i as int) =~= keys@);
}

impl PassState {
    /// The number of the frame, and for every texture with a count a row of its handle, the
    /// draws onto it and the binds of it, in ascending order of the handles. The counts start
    /// anew.
    pub fn take_cascade_frame_summary(&mut self) -> (r: (u64, Vec<(u64, u32, u32)>))
        ensures
            r.0 == old(self)@.frame_seq,
            ascending(r.1@.map_values(|row: (u64, u32, u32)| row.0)),
            forall|k: u64|
                r.1@.map_values(|row: (u64, u32, u32)| row.0).contains(k) <==> (
                old(self)@.caster_writes.contains_key(k) || old(self)@.cascade_samples.contains_key(
                    k,
                )),
            forall|i: int|
                0 <= i < r.1@.len() ==> (#[trigger] r.1@[i]).1 == count_of(
                    old(self)@.caster_writes,
                    r.1@[i].0,
                ) && r.1@[i].2 == count_of(old(self)@.cascade_samples, r.1@[i].0),
            final(self)@ == (PassStateView {
                caster_writes: Map::empty(),
                cascade_samples: Map::empty(),
                ..old(self)@
            }),
            final(self).realloc_bytes() == old(self).realloc_bytes(),
    {
        let writers: Vec<u64> = map_keys(&self.caster_writes);
        let samplers: Vec<u64> = map_keys(&self.cascade_samples);
        let mut keys: Vec<u64> = Vec::new();
        insert_all(&mut keys, &writers);
        insert_all(&mut keys, &samplers);
        let mut rows: Vec<(u64, u32, u32)> = Vec::new();
        let mut i: usize = 0;
        while i < keys.len()
            invariant
                i <= keys@.len(),
                self@ == old(self)@,
                rows@.len() == i,
                forall|j: int|
                    0 <= j < i ==> (#[trigger] rows@[j]).0 == keys@[j] && rows@[j].1 == count_of(
                        self@.caster_writes,
                        keys@[j],
                    ) && rows@[j].2 == count_of(self@.cascade_samples, keys@[j]),
            decreases keys@.len() - i,
        {
            let key: u64 = keys[i];
            let writes: u32 = match map_get(&self.caster_writes, key) {
                Some(c) => c,
                None => 0,
            };
            let samples: u32 = match map_get(&self.cascade_samples, key) {
                Some(c) => c,
                None => 0,
            };
            rows.push((key, writes, samples));
            i += 1;
        }
        assert(rows@.map_values(|row: (u64, u32, u32)| row.0) =~= keys@);
        self.caster_writes.clear();
        self.cascade_samples.clear();
        (self.frame_seq, rows)
    }

    /// The bytes that the command vectors of the recorded passes occupy. How much room each
    /// has is the allocator's affair; it is never less than its commands take.
    pub fn cmd_vec_capacity_bytes(&self) -> (r: u64)
        ensures
            exists|room: Seq<usize>|
                room.len() == self@.passes.len() && (forall|i: int|
                    0 <= i < room.len() ==> #[trigger] room[i] >= self@.passes[i].commands.len())
                    && r == occupied(room, vstd::layout::size_of::<Command>()),
    {
        let element: usize = core::mem::size_of::<Command>();
        let mut room: Vec<usize> = Vec::new();
        let mut i: usize = 0;
        while i < self.passes.len()
            invariant
                i <= self.passes@.len(),
                room@.len() == i,
                forall|j: int|
                    0 <= j < i ==> #[trigger] room@[j] >= self@.passes[j].commands.len(),
            decreases self.passes@.len() - i,
        {
            let capacity: usize = command_capacity(&self.passes[i].list.commands);
            assert(self@.passes[i as int].commands.len() == self.passes@[i as int].list.commands.len());
            room.push(capacity);
            i += 1;
        }
        occupied_bytes(room.as_slice(), element)
    }
}

/// The room of some vectors together.
pub open spec fn total_room(room: Seq<usize>) -> nat
    decreases room.len(),
{
    if room.len() == 0 {
        0
    } else {
        total_room(room.drop_last()) + room.last() as nat
    }
}

/// The bytes that vectors with room for so many elements of one size occupy, held to what
/// can be counted.
pub open spec fn occupied(room: Seq<usize>, element: nat) -> nat {
    if total_room(room) * element > u64::MAX {
        u64::MAX as nat
    } else {
        total_room(room) * element
    }
}

/// Adds up the bytes of vectors with room for so many elements of one size.
pub fn occupied_bytes(room: &[usize], element: usize) -> (r: u64)
    ensures
        r == occupied(room@, element as nat),
{
    let mut sum: u64 = 0;
    let mut i: usize = 0;
    assert(room@.take(0) =~= Seq::<usize>::empty());
    assert(total_room(room@.take(0)) * element as nat == 0) by (nonlinear_arith)
        requires
            total_room(room@.take(0)) == 0,
    ;
    while i < room.len()
        invariant
            i <= room@.len(),
            sum == occupied(room@.take(i as int), element as nat),
        decreases room@.len() - i,
    {
        let bytes: u64 = match (room[i] as u64).checked_mul(element as u64) {
            Some(b) => b,
            None => u64::MAX,
        };
        proof {
            let next = room@.take(i as int + 1);
            assert(next.drop_last() =~= room@.take(i as int));
            let a = total_room(room@.take(i as int)) as int;
            let b = room@[i as int] as int;
            let e = element as int;
            assert((a + b) * e == a * e + b * e) by (nonlinear_arith);
            assert(a * e >= 0 && b * e >= 0) by (nonlinear_arith)
                requires
                    a >= 0,
                    b >= 0,
                    e >= 0,
            ;
        }
        sum = sum.saturating_add(bytes);
        i += 1;
    }
    assert(room@.take(room@.len() as int) =~= room@);
    sum
}

} // verus!
