//! Hash sets and maps with the Fx hash function.
//!
//! `rustc_hash::FxHashSet` and `FxHashMap` are the standard collections with
//! `FxBuildHasher`, a stateless hasher. vstd specifies the standard methods
//! only for hashers it knows to be well behaved, so the operations the library
//! uses on integer keys are given their contracts here, over the mathematical
//! set or map a collection holds.

use rustc_hash::{FxHashMap, FxHashSet};
use vstd::prelude::*;

verus! {

/// `rustc_hash::FxBuildHasher`, carried as a type parameter of the collections.
#[verifier::external_type_specification]
#[verifier::external_body]
pub struct ExFxBuildHasher(rustc_hash::FxBuildHasher);

/// A texture handle together with the packed slice and mip level of one of its subresources.
pub type Subresource = (u64, u32);

/// Whether a tracked subresource belongs to a texture other than `texture`.
pub fn is_other_texture(key: &Subresource, texture: u64) -> (r: bool)
    ensures
        r == (key.0 != texture),
{
    key.0 != texture
}

/// `HashSet::contains` on handles: membership.
#[verifier::external_body]
pub(crate) fn set_contains(set: &FxHashSet<u64>, key: u64) -> (r: bool)
    ensures
        r == set@.contains(key),
{
    set.contains(&key)
}

/// `HashSet::insert` on handles: adds the key and says whether it was absent.
#[verifier::external_body]
pub(crate) fn set_insert(set: &mut FxHashSet<u64>, key: u64) -> (r: bool)
    ensures
        final(set)@ == old(set)@.insert(key),
        r == !old(set)@.contains(key),
{
    set.insert(key)
}

/// `HashSet::remove` on handles: takes the key out and says whether it was there.
#[verifier::external_body]
pub(crate) fn set_remove(set: &mut FxHashSet<u64>, key: u64) -> (r: bool)
    ensures
        final(set)@ == old(set)@.remove(key),
        r == old(set)@.contains(key),
{
    set.remove(&key)
}

/// `HashSet::is_disjoint` on handles: no key is in both sets.
#[verifier::external_body]
pub(crate) fn set_is_disjoint(a: &FxHashSet<u64>, b: &FxHashSet<u64>) -> (r: bool)
    ensures
        r == a@.disjoint(b@),
{
    a.is_disjoint(b)
}

/// `HashSet::extend` on handles: adds every key of `other`.
#[verifier::external_body]
pub(crate) fn set_extend(set: &mut FxHashSet<u64>, other: FxHashSet<u64>)
    ensures
        final(set)@ == old(set)@.union(other@),
{
    set.extend(other);
}

/// `HashSet::contains` on subresources: membership.
#[verifier::external_body]
pub(crate) fn sub_contains(set: &FxHashSet<Subresource>, key: Subresource) -> (r: bool)
    ensures
        r == set@.contains(key),
{
    set.contains(&key)
}

/// `HashSet::insert` on subresources: adds the key and says whether it was absent.
#[verifier::external_body]
pub(crate) fn sub_insert(set: &mut FxHashSet<Subresource>, key: Subresource) -> (r: bool)
    ensures
        final(set)@ == old(set)@.insert(key),
        r == !old(set)@.contains(key),
{
    set.insert(key)
}

/// `HashSet::retain` on subresources: drops exactly those of `texture`.
#[verifier::external_body]
pub(crate) fn sub_forget_texture(set: &mut FxHashSet<Subresource>, texture: u64)
    ensures
        final(set)@ == old(set)@.filter(|key: Subresource| key.0 != texture),
{
    set.retain(|key| is_other_texture(key, texture));
}

/// `HashMap::get` on handles, the value copied out.
#[verifier::external_body]
pub(crate) fn map_get<V: Copy>(map: &FxHashMap<u64, V>, key: u64) -> (r: Option<V>)
    ensures
        r == (if map@.contains_key(key) {
            Some(map@[key])
        } else {
            None
        }),
{
    map.get(&key).copied()
}

/// `HashMap::insert` on handles: the key now maps to `value`.
#[verifier::external_body]
pub(crate) fn map_insert<V: Copy>(map: &mut FxHashMap<u64, V>, key: u64, value: V)
    ensures
        final(map)@ == old(map)@.insert(key, value),
{
    map.insert(key, value);
}

/// `HashMap::remove` on handles: takes the entry out and hands back its value.
#[verifier::external_body]
pub(crate) fn map_remove<V: Copy>(map: &mut FxHashMap<u64, V>, key: u64) -> (r: Option<V>)
    ensures
        final(map)@ == old(map)@.remove(key),
        r == (if old(map)@.contains_key(key) {
            Some(old(map)@[key])
        } else {
            None
        }),
{
    map.remove(&key)
}

/// `HashMap::keys` on handles, collected: every key once, in no particular order.
#[verifier::external_body]
pub(crate) fn map_keys<V: Copy>(map: &FxHashMap<u64, V>) -> (r: Vec<u64>)
    ensures
        r@.no_duplicates(),
        forall|key: u64| r@.contains(key) <==> map@.contains_key(key),
{
    map.keys().copied().collect()
}

/// `HashMap::get` on subresources, the value copied out.
#[verifier::external_body]
pub(crate) fn sub_map_get<V: Copy>(map: &FxHashMap<Subresource, V>, key: Subresource) -> (r: Option<V>)
    ensures
        r == (if map@.contains_key(key) {
            Some(map@[key])
        } else {
            None
        }),
{
    map.get(&key).copied()
}

/// `HashMap::insert` on subresources: the key now maps to `value`.
#[verifier::external_body]
pub(crate) fn sub_map_insert<V: Copy>(map: &mut FxHashMap<Subresource, V>, key: Subresource, value: V)
    ensures
        final(map)@ == old(map)@.insert(key, value),
{
    map.insert(key, value);
}

} // verus!
