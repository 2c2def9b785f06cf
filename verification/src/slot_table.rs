//! The table that gives each simulated entity a fixed slot of the physics
//! record buffer.

use vstd::prelude::*;
use crate::entity_slots::{EntitySlots, slot_entries, entity_slots_new, entity_slots_get, entity_slots_insert, entity_slots_remove};

verus! {

/// Number of 32-bit words in each device buffer of the compute stages.
pub const MAX_TYPE_BUFFER_DATA: usize = 1_000_000;

/// Byte capacity of the physics record buffer.
pub const BUFFER_CAPACITY_BYTES: usize = 4 * MAX_TYPE_BUFFER_DATA;

/// Number of 32-bit words in one physics record.
pub const RECORD_WORDS: usize = 14;

/// Byte stride of one physics record.
pub const RECORD_BYTES: usize = 4 * RECORD_WORDS;

/// Number of records that the physics record buffer can hold.
pub const MAX_RECORDS: usize = BUFFER_CAPACITY_BYTES / RECORD_BYTES;

/// Index of a record in the physics record buffer.
#[derive(Clone, Copy, Debug, PartialEq, Eq, Structural)]
pub struct SlotId {
    pub index: usize,
}

/// The table is full: every one of the `MAX_RECORDS` slots belongs to some
/// entity.
#[derive(Clone, Copy, Debug, PartialEq, Eq, Structural)]
pub struct CapacityExceeded;

/// What a slot table holds.
pub ghost struct SlotTableView {
    /// The slot of each live entity.
    pub slots: Map<u64, usize>,
    /// For each slot ever handed out, the entity that owns it now, if any.
    pub owners: Seq<Option<u64>>,
    /// Released slots, the most recently released last.
    pub freed: Seq<usize>,
}

impl SlotTableView {
    /// Number of slots that belong to an entity.
    pub open spec fn live(self) -> nat {
        self.slots.dom().len()
    }

    /// Number of slots ever handed out: the slots in use and the released
    /// ones are those below it.
    pub open spec fn next(self) -> nat {
        self.owners.len()
    }

    /// The slot that the next new entity receives: the most recently released
    /// one, or the first that was never handed out.
    pub open spec fn next_free(self) -> usize {
        if self.freed.len() > 0 {
            self.freed.last()
        } else {
            self.owners.len() as usize
        }
    }

    /// The two directions of the table agree, no slot belongs to two
    /// entities, the released slots have no owner and are listed once, and at
    /// most `MAX_RECORDS` slots were ever handed out.
    pub open spec fn wf(self) -> bool {
        &&& self.slots.dom().finite()
        &&& self.owners.len() <= MAX_RECORDS
        &&& self.live() + self.freed.len() == self.owners.len()
        &&& forall|e: u64| #[trigger]
            self.slots.contains_key(e) ==> self.slots[e] < self.owners.len()
                && self.owners[self.slots[e] as int] == Some(e)
        &&& forall|s: int|
            0 <= s < self.owners.len() && (#[trigger] self.owners[s]) is Some
                ==> self.slots.contains_key(self.owners[s]->0) && self.slots[self.owners[s]->0]
                == s
        &&& forall|i: int|
            0 <= i < self.freed.len() ==> (#[trigger] self.freed[i]) < self.owners.len()
                && self.owners[self.freed[i] as int] is None
        &&& forall|i: int, j: int|
            0 <= i < j < self.freed.len() ==> #[trigger] self.freed[i] != #[trigger] self.freed[j]
    }

    /// The table after `entity` has been given the slot `next_free()`.
    pub open spec fn with_entity(self, entity: u64) -> SlotTableView {
        SlotTableView {
            slots: self.slots.insert(entity, self.next_free()),
            owners: if self.freed.len() > 0 {
                self.owners.update(self.next_free() as int, Some(entity))
            } else {
                self.owners.push(Some(entity))
            },
            freed: if self.freed.len() > 0 {
                self.freed.drop_last()
            } else {
                self.freed
            },
        }
    }

    /// The table after the slot of `entity` has been released.
    pub open spec fn without_entity(self, entity: u64) -> SlotTableView {
        SlotTableView {
            slots: self.slots.remove(entity),
            owners: self.owners.update(self.slots[entity] as int, None),
            freed: self.freed.push(self.slots[entity]),
        }
    }

    /// What a request for a slot for `entity` answers: the slot the entity
    /// has, else the next free one, else nothing when the table is full.
    pub open spec fn allocation(self, entity: u64) -> Option<usize> {
        if self.slots.contains_key(entity) {
            Some(self.slots[entity])
        } else if self.live() < MAX_RECORDS {
            Some(self.next_free())
        } else {
            None
        }
    }

    /// The table after a request for a slot for `entity`.
    pub open spec fn allocate(self, entity: u64) -> SlotTableView {
        if !self.slots.contains_key(entity) && self.live() < MAX_RECORDS {
            self.with_entity(entity)
        } else {
            self
        }
    }

    /// The table after a request to release the slot of `entity`.
    pub open spec fn free(self, entity: u64) -> SlotTableView {
        if self.slots.contains_key(entity) {
            self.without_entity(entity)
        } else {
            self
        }
    }

    /// The table in which no slot was ever handed out.
    pub open spec fn empty() -> SlotTableView {
        SlotTableView { slots: Map::empty(), owners: Seq::empty(), freed: Seq::empty() }
    }
}

/// A request to a slot table.
pub enum SlotRequest {
    /// Give the entity a slot.
    Allocate(u64),
    /// Release the entity's slot.
    Free(u64),
}

/// The table after one request.
pub open spec fn after_request(table: SlotTableView, request: SlotRequest) -> SlotTableView {
    match request {
        SlotRequest::Allocate(entity) => table.allocate(entity),
        SlotRequest::Free(entity) => table.free(entity),
    }
}

/// The table after a sequence of requests, the first one first, starting from
/// the empty table.
pub open spec fn after_requests(requests: Seq<SlotRequest>) -> SlotTableView
    decreases requests.len(),
{
    if requests.len() == 0 {
        SlotTableView::empty()
    } else {
        after_request(after_requests(requests.drop_last()), requests.last())
    }
}

/// A request for a slot keeps the table well formed, and so keeps the number
/// of live slots within `MAX_RECORDS`.
pub proof fn lemma_allocate_keeps_wf(table: SlotTableView, entity: u64)
    requires
        table.wf(),
    ensures
        table.allocate(entity).wf(),
        table.allocate(entity).live() <= MAX_RECORDS,
{
    if !table.slots.contains_key(entity) && table.live() < MAX_RECORDS {
        let after = table.with_entity(entity);
        assert(after.slots.dom() == table.slots.dom().insert(entity));
        if table.freed.len() > 0 {
            assert(table.freed[table.freed.len() - 1] == table.next_free());
        }
        assert forall|s: int|
            0 <= s < after.owners.len() && (#[trigger] after.owners[s]) is Some implies after.slots.contains_key(
            after.owners[s]->0,
        ) && after.slots[after.owners[s]->0] == s by {
            if s != table.next_free() {
                assert(table.owners[s] is Some);
            }
        }
    }
}

/// Releasing a slot keeps the table well formed.
pub proof fn lemma_free_keeps_wf(table: SlotTableView, entity: u64)
    requires
        table.wf(),
    ensures
        table.free(entity).wf(),
        table.free(entity).live() <= MAX_RECORDS,
{
    if table.slots.contains_key(entity) {
        let after = table.without_entity(entity);
        assert(after.slots.dom() == table.slots.dom().remove(entity));
        assert forall|s: int|
            0 <= s < after.owners.len() && (#[trigger] after.owners[s]) is Some implies after.slots.contains_key(
            after.owners[s]->0,
        ) && after.slots[after.owners[s]->0] == s by {
            assert(table.owners[s] is Some);
        }
    }
}

/// Whatever entities are given slots and released, in whatever order, the
/// table stays well formed: never more than `MAX_RECORDS` slots are live, and
/// no slot belongs to two entities.
pub proof fn lemma_requests_keep_wf(requests: Seq<SlotRequest>)
    ensures
        after_requests(requests).wf(),
        after_requests(requests).live() <= MAX_RECORDS,
    decreases requests.len(),
{
    if requests.len() == 0 {
        assert(SlotTableView::empty().slots.dom() == Set::<u64>::empty());
    } else {
        let before = after_requests(requests.drop_last());
        lemma_requests_keep_wf(requests.drop_last());
        match requests.last() {
            SlotRequest::Allocate(entity) => lemma_allocate_keeps_wf(before, entity),
            SlotRequest::Free(entity) => lemma_free_keeps_wf(before, entity),
        }
    }
}

/// A request that the full table refuses leaves every entity's slot as it was.
pub proof fn lemma_refusal_disturbs_nothing(table: SlotTableView, entity: u64)
    requires
        table.wf(),
        table.allocation(entity).is_none(),
    ensures
        table.live() == MAX_RECORDS,
        !table.slots.contains_key(entity),
        table.allocate(entity) == table,
{
}

/// A slot given to a new entity belonged to no other entity.
pub proof fn lemma_new_slot_is_unused(table: SlotTableView, entity: u64, other: u64)
    requires
        table.wf(),
        !table.slots.contains_key(entity),
        table.live() < MAX_RECORDS,
        table.slots.contains_key(other),
    ensures
        table.slots[other] != table.next_free(),
{
    if table.freed.len() > 0 {
        assert(table.freed[table.freed.len() - 1] == table.next_free());
    }
}

/// The slots of two live entities differ, and each slot knows its owner.
pub proof fn lemma_slots_are_distinct(table: SlotTableView, one: u64, other: u64)
    requires
        table.wf(),
        table.slots.contains_key(one),
        table.slots.contains_key(other),
        one != other,
    ensures
        table.slots[one] != table.slots[other],
        table.owners[table.slots[one] as int] == Some(one),
{
}

/// The slots of the physics record buffer and the entities that own them.
pub struct PhysicsData {
    entities: EntitySlots,
    owners: Vec<Option<u64>>,
    freed: Vec<usize>,
}

impl View for PhysicsData {
    type V = SlotTableView;

    closed spec fn view(&self) -> SlotTableView {
        SlotTableView { slots: slot_entries(self.entities), owners: self.owners@, freed: self.freed@ }
    }
}

impl PhysicsData {
    /// The table's invariant, over its view.
    pub open spec fn wf(&self) -> bool {
        self@.wf()
    }

    /// A table in which no slot was ever handed out.
    pub fn new() -> (table: PhysicsData)
        ensures
            table.wf(),
            table@ == SlotTableView::empty(),
    {
        let table = PhysicsData {
            entities: entity_slots_new(),
            owners: Vec::new(),
            freed: Vec::new(),
        };
        proof {
            assert(table@.slots.dom() == Set::<u64>::empty());
        }
        table
    }

    /// The slot of `entity`, if it has one.
    pub fn slot_of(&self, entity: u64) -> (found: Option<SlotId>)
        ensures
            found == (if self@.slots.contains_key(entity) {
                Some(SlotId { index: self@.slots[entity] })
            } else {
                None
            }),
    {
        match entity_slots_get(&self.entities, entity) {
            Some(index) => Some(SlotId { index }),
            None => None,
        }
    }

    /// The entity that owns `slot`, if the slot is in use.
    pub fn owner_of(&self, slot: SlotId) -> (owner: Option<u64>)
        ensures
            owner == (if slot.index < self@.owners.len() {
                self@.owners[slot.index as int]
            } else {
                None
            }),
    {
        if slot.index < self.owners.len() {
            self.owners[slot.index]
        } else {
            None
        }
    }

    /// For each slot ever handed out, the entity that owns it now, if any.
    pub fn owners(&self) -> (owners: Vec<Option<u64>>)
        ensures
            owners@ == self@.owners,
    {
        let mut owners: Vec<Option<u64>> = Vec::new();
        let mut slot: usize = 0;
        while slot < self.owners.len()
            invariant
                slot <= self.owners@.len(),
                owners@ == self.owners@.subrange(0, slot as int),
            decreases self.owners@.len() - slot,
        {
            owners.push(self.owners[slot]);
            assert(owners@ =~= self.owners@.subrange(0, slot + 1));
            slot += 1;
        }
        assert(owners@ =~= self.owners@);
        owners
    }

    /// Number of slots that belong to an entity.
    pub fn live_slots(&self) -> (live: usize)
        requires
            self.wf(),
        ensures
            live == self@.live(),
            live <= MAX_RECORDS,
    {
        self.owners.len() - self.freed.len()
    }

    /// Number of records that the physics stage visits: every slot ever
    /// handed out, in use or not.
    pub fn dispatch_size(&self) -> (records: u32)
        requires
            self.wf(),
        ensures
            records == self@.next(),
    {
        self.owners.len() as u32
    }

    /// Length in bytes of the part of the record buffer that holds the slots
    /// ever handed out.
    pub fn buffer_length(&self) -> (bytes: u64)
        requires
            self.wf(),
        ensures
            bytes == self@.next() * RECORD_BYTES,
    {
        (self.owners.len() as u64) * (RECORD_BYTES as u64)
    }

    /// Gives `entity` a slot. An entity that has one keeps it. A new entity
    /// receives the most recently released slot, or, when none is released, the
    /// first slot never handed out. With all `MAX_RECORDS` slots in use a new
    /// entity is refused and the table stays as it is.
    pub fn allocate_slot(&mut self, entity: u64) -> (result: Result<SlotId, CapacityExceeded>)
        requires
            old(self).wf(),
        ensures
            final(self).wf(),
            final(self)@ == old(self)@.allocate(entity),
            final(self)@.live() <= MAX_RECORDS,
            match result {
                Ok(slot) => old(self)@.allocation(entity) == Some(slot.index),
                Err(_) => old(self)@.allocation(entity).is_none(),
            },
    {
        if let Some(index) = entity_slots_get(&self.entities, entity) {
            return Ok(SlotId { index });
        }
        let index: usize;
        if self.freed.len() > 0 {
            index = self.freed.pop().unwrap();
            self.owners.set(index, Some(entity));
        } else if self.owners.len() < MAX_RECORDS {
            index = self.owners.len();
            self.owners.push(Some(entity));
        } else {
            return Err(CapacityExceeded);
        }
        let _ = entity_slots_insert(&mut self.entities, entity, index);
        proof {
            assert(final(self)@.slots.dom() == old(self)@.slots.dom().insert(entity));
            assert(final(self)@ == old(self)@.with_entity(entity));
            lemma_allocate_keeps_wf(old(self)@, entity);
        }
        Ok(SlotId { index })
    }

    /// Releases the slot of `entity` and returns it. The slot is the first to
    /// be handed out again. An entity without a slot changes nothing.
    pub fn free_slot(&mut self, entity: u64) -> (released: Option<SlotId>)
        requires
            old(self).wf(),
        ensures
            final(self).wf(),
            final(self)@ == old(self)@.free(entity),
            released == (if old(self)@.slots.contains_key(entity) {
                Some(SlotId { index: old(self)@.slots[entity] })
            } else {
                None
            }),
    {
        match entity_slots_remove(&mut self.entities, entity) {
            Some(index) => {
                self.owners.set(index, None);
                self.freed.push(index);
                proof {
                    assert(final(self)@ == old(self)@.without_entity(entity));
                    lemma_free_keeps_wf(old(self)@, entity);
                }
                Some(SlotId { index })
            },
            None => {
                proof {
                    assert(slot_entries(self.entities) == slot_entries(old(self).entities));
                }
                None
            },
        }
    }
}

} // verus!
