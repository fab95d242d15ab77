//! The spatial index of the play field: a `bevy` hash map from grid coordinates
//! to entity ids, reached through trusted wrappers.

use vstd::prelude::*;

use bevy::platform::collections::HashMap;
use bevy::platform::hash::FixedHasher;

verus! {

/// Declares `bevy`'s hash map, which the spatial index uses.
#[verifier::external_type_specification]
#[verifier::external_body]
#[verifier::reject_recursive_types(K)]
#[verifier::reject_recursive_types(V)]
#[verifier::reject_recursive_types(S)]
pub struct ExHashMap<K, V, S>(HashMap<K, V, S>);

/// Declares the fixed hasher that `bevy`'s hash map uses by default.
#[verifier::external_type_specification]
#[verifier::external_body]
pub struct ExFixedHasher(FixedHasher);

/// The spatial index: entity ids by grid coordinates.
pub type EntityIndex = HashMap<(i32, i32), u64>;

/// What a spatial index holds: the entity id stored for each pair of grid coordinates.
pub uninterp spec fn index_contents(m: EntityIndex) -> Map<(i32, i32), u64>;

/// `bevy`'s `HashMap::new`: claims that the new map holds nothing.
#[verifier::external_body]
pub(crate) fn index_new() -> (r: EntityIndex)
    ensures
        index_contents(r).dom() == Set::<(i32, i32)>::empty(),
{
    HashMap::new()
}

/// `bevy`'s `HashMap::get` (the value copied out): claims that it returns the value
/// stored under `key`, or `None` when nothing is.
#[verifier::external_body]
pub(crate) fn index_get(m: &EntityIndex, key: (i32, i32)) -> (r: Option<u64>)
    ensures
        r == (if index_contents(*m).contains_key(key) {
            Some(index_contents(*m)[key])
        } else {
            None
        }),
{
    m.get(&key).copied()
}

/// `bevy`'s `HashMap::insert`: claims that afterwards `key` maps to `value`, every other
/// key is unchanged, and the value previously stored under `key` is returned.
#[verifier::external_body]
pub(crate) fn index_insert(m: &mut EntityIndex, key: (i32, i32), value: u64) -> (r:
    Option<u64>)
    ensures
        index_contents(*final(m)) == index_contents(*old(m)).insert(key, value),
        r == (if index_contents(*old(m)).contains_key(key) {
            Some(index_contents(*old(m))[key])
        } else {
            None
        }),
{
    m.insert(key, value)
}

/// `bevy`'s `HashMap::remove`: claims that afterwards nothing is stored under `key`,
/// every other key is unchanged, and the value previously stored under `key` is returned.
#[verifier::external_body]
pub(crate) fn index_remove(m: &mut EntityIndex, key: (i32, i32)) -> (r: Option<u64>)
    ensures
        index_contents(*final(m)) == index_contents(*old(m)).remove(key),
        r == (if index_contents(*old(m)).contains_key(key) {
            Some(index_contents(*old(m))[key])
        } else {
            None
        }),
{
    m.remove(&key)
}

} // verus!
