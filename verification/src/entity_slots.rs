//! The entity-to-slot map, kept in the engine's own hash map.
//!
//! Entities are held by their 64-bit identifier, which tells an entity from
//! an earlier one that had the same index. The map is a
//! `bevy::utils::HashMap`, whose allocator parameter cannot be named from
//! here, so it sits in a private field and every access goes through the
//! functions of this module. Their contracts are taken on trust from the
//! documentation of `hashbrown::HashMap`, which the alias stands for.

use vstd::prelude::*;

verus! {

/// A hash map from entity identifiers to slot indices.
#[verifier::external_body]
pub struct EntitySlots {
    inner: bevy::utils::HashMap<u64, usize>,
}

/// The entries that a map holds.
pub uninterp spec fn slot_entries(m: EntitySlots) -> Map<u64, usize>;

/// The map without entries.
pub open spec fn no_entries() -> Map<u64, usize> {
    Map::empty()
}

/// `HashMap::new`: a map without entries.
#[verifier::external_body]
pub(crate) fn entity_slots_new() -> (created: EntitySlots)
    ensures
        slot_entries(created) == no_entries(),
{
    EntitySlots { inner: bevy::utils::HashMap::new() }
}

/// `HashMap::get`: the slot stored under `entity`, if there is one. The map is
/// not changed.
#[verifier::external_body]
pub(crate) fn entity_slots_get(m: &EntitySlots, entity: u64) -> (found: Option<usize>)
    ensures
        found == (if slot_entries(*m).contains_key(entity) {
            Some(slot_entries(*m)[entity])
        } else {
            None
        }),
{
    m.inner.get(&entity).copied()
}

/// `HashMap::insert`: stores `slot` under `entity`, replacing what was stored
/// there, and returns the slot that was replaced.
#[verifier::external_body]
pub(crate) fn entity_slots_insert(m: &mut EntitySlots, entity: u64, slot: usize) -> (previous:
    Option<usize>)
    ensures
        slot_entries(*final(m)) == slot_entries(*old(m)).insert(entity, slot),
        previous == (if slot_entries(*old(m)).contains_key(entity) {
            Some(slot_entries(*old(m))[entity])
        } else {
            None
        }),
{
    m.inner.insert(entity, slot)
}

/// `HashMap::remove`: takes the entry of `entity` out of the map and returns
/// its slot; without such an entry the map stays as it is.
#[verifier::external_body]
pub(crate) fn entity_slots_remove(m: &mut EntitySlots, entity: u64) -> (previous: Option<usize>)
    ensures
        slot_entries(*final(m)) == slot_entries(*old(m)).remove(entity),
        previous == (if slot_entries(*old(m)).contains_key(entity) {
            Some(slot_entries(*old(m))[entity])
        } else {
            None
        }),
{
    m.inner.remove(&entity)
}

} // verus!
