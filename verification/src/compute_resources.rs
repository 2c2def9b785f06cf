//! The device resources of the compute stages, by their identities: which
//! buffers and textures exist now, which of them the bind group refers to,
//! and the per-frame uniforms. The slot table of the physics records belongs
//! to the same manager.

use vstd::prelude::*;
use crate::device_bytes::{is_native_image, words_to_bytes};
use crate::physics_record::{PhysicsRecord, record_words, with_record, write_record};
use crate::slot_table::{
    CapacityExceeded, PhysicsData, SlotId, SlotTableView, MAX_RECORDS, MAX_TYPE_BUFFER_DATA,
    RECORD_WORDS,
};

verus! {

/// The two scalars that every compute stage receives, as float bit patterns.
#[derive(Clone, Copy, Debug, PartialEq, Eq, Structural)]
pub struct ComputeUniforms {
    pub time: u32,
    pub delta_time: u32,
}

/// The device resources that hold one world: the occupancy buffer and the 27
/// chunk volumes, each by the identity that the device gave it.
#[derive(Clone, Copy, Debug, PartialEq, Eq)]
pub struct WorldResources {
    pub grid_hierarchy: u64,
    pub chunk_textures: [u64; 27],
}

/// Everything that a dispatch binds, by identity.
#[derive(Clone, Copy, Debug, PartialEq, Eq)]
pub struct BoundResources {
    pub uniform_buffer: u64,
    pub physics_buffer: u64,
    pub animation_buffer: u64,
    pub texture_sampler: u64,
    pub world: WorldResources,
}

impl WorldResources {
    /// Whether `id` is the identity of one of these resources.
    pub open spec fn holds(self, id: u64) -> bool {
        self.grid_hierarchy == id || exists|i: int|
            0 <= i < 27 && #[trigger] self.chunk_textures@[i] == id
    }

    /// Whether the two hold the same identities.
    pub fn same_as(&self, other: &WorldResources) -> (same: bool)
        ensures
            same == (*self == *other),
    {
        if self.grid_hierarchy != other.grid_hierarchy {
            return false;
        }
        let mut i: usize = 0;
        while i < 27
            invariant
                i <= 27,
                self.grid_hierarchy == other.grid_hierarchy,
                forall|j: int| 0 <= j < i ==> self.chunk_textures@[j] == other.chunk_textures@[j],
            decreases 27 - i,
        {
            if self.chunk_textures[i] != other.chunk_textures[i] {
                return false;
            }
            i += 1;
        }
        assert(self.chunk_textures =~= other.chunk_textures);
        true
    }
}

impl BoundResources {
    /// Whether the two hold the same identities.
    pub fn same_as(&self, other: &BoundResources) -> (same: bool)
        ensures
            same == (*self == *other),
    {
        self.uniform_buffer == other.uniform_buffer && self.physics_buffer == other.physics_buffer
            && self.animation_buffer == other.animation_buffer && self.texture_sampler
            == other.texture_sampler && self.world.same_as(&other.world)
    }
}

/// What a resource manager holds.
pub ghost struct ResourceManagerView {
    /// The slot table of the physics records.
    pub physics: SlotTableView,
    /// The words of the physics record buffer, the record of slot `s` from
    /// word `RECORD_WORDS * s` on.
    pub records: Seq<u32>,
    /// The resources that exist now.
    pub resources: BoundResources,
    /// The resources that the bind group refers to.
    pub bind_group: BoundResources,
    /// The uniforms that were written last.
    pub uniforms: ComputeUniforms,
    /// Whether the uniforms were written since the frame began.
    pub uniforms_written: bool,
    /// Whether the device failed to create resources since the frame began.
    pub rebuild_failed: bool,
}

impl ResourceManagerView {
    /// The bind group refers to the resources that exist now.
    pub open spec fn bind_group_current(self) -> bool {
        self.bind_group == self.resources
    }

    /// A frame can be dispatched: the bind group is current, the uniforms of
    /// the frame are written, and no resource failed to be created in it.
    pub open spec fn ready(self) -> bool {
        self.bind_group_current() && self.uniforms_written && !self.rebuild_failed
    }
}

/// The manager after the physics state of `entity` has been entered: the
/// entity has its slot and the record stands there, or, if the table is
/// full, nothing has changed.
pub open spec fn staged(before: ResourceManagerView, entity: u64, record: PhysicsRecord)
    -> ResourceManagerView {
    match before.physics.allocation(entity) {
        Some(index) => ResourceManagerView {
            physics: before.physics.allocate(entity),
            records: with_record(before.records, SlotId { index }, record),
            ..before
        },
        None => before,
    }
}

/// The slot that a well-formed table answers with is one of the
/// `MAX_RECORDS` slots, whose records all lie within the record buffer.
pub proof fn lemma_allocation_is_in_range(table: SlotTableView, entity: u64)
    requires
        table.wf(),
        table.allocation(entity) is Some,
    ensures
        table.allocation(entity)->0 < MAX_RECORDS,
        RECORD_WORDS * (table.allocation(entity)->0 + 1) <= MAX_TYPE_BUFFER_DATA,
{
    if !table.slots.contains_key(entity) && table.freed.len() > 0 {
        assert(table.freed[table.freed.len() - 1] == table.next_free());
    }
}

/// Entering a record leaves the record of every other slot as it was.
pub proof fn lemma_staging_keeps_other_records(
    records: Seq<u32>,
    slot: SlotId,
    record: PhysicsRecord,
    other: SlotId,
    word: int,
)
    requires
        RECORD_WORDS * (slot.index + 1) <= records.len(),
        RECORD_WORDS * (other.index + 1) <= records.len(),
        other != slot,
        0 <= word < RECORD_WORDS,
    ensures
        with_record(records, slot, record).len() == records.len(),
        with_record(records, slot, record)[RECORD_WORDS * other.index + word]
            == records[RECORD_WORDS * other.index + word],
        with_record(records, slot, record)[RECORD_WORDS * slot.index + word] == record_words(
            record,
        )[word],
{
    assert(crate::physics_record::effect_params(record.collision_effect).len() == 4);
    assert(record_words(record).len() == RECORD_WORDS);
}

/// Owner of the compute resources and of the slot table.
pub struct ComputeResourceManager {
    physics: PhysicsData,
    records: Vec<u32>,
    resources: BoundResources,
    bind_group: BoundResources,
    uniforms: ComputeUniforms,
    uniforms_written: bool,
    rebuild_failed: bool,
}

impl View for ComputeResourceManager {
    type V = ResourceManagerView;

    closed spec fn view(&self) -> ResourceManagerView {
        ResourceManagerView {
            physics: self.physics@,
            records: self.records@,
            resources: self.resources,
            bind_group: self.bind_group,
            uniforms: self.uniforms,
            uniforms_written: self.uniforms_written,
            rebuild_failed: self.rebuild_failed,
        }
    }
}

impl ComputeResourceManager {
    /// The manager's invariant: its slot table is well formed, and the record
    /// buffer has its full length.
    pub open spec fn wf(&self) -> bool {
        self@.physics.wf() && self@.records.len() == MAX_TYPE_BUFFER_DATA
    }

    /// A manager of the given resources, which are all complete. The bind
    /// group refers to them, no entity has a slot, and the uniforms are zero
    /// and count as not written.
    pub fn new(resources: BoundResources) -> (manager: ComputeResourceManager)
        ensures
            manager.wf(),
            manager@.physics == SlotTableView::empty(),
            manager@.records == Seq::new(MAX_TYPE_BUFFER_DATA as nat, |i: int| 0u32),
            manager@.resources == resources,
            manager@.bind_group == resources,
            manager@.uniforms == (ComputeUniforms { time: 0, delta_time: 0 }),
            !manager@.uniforms_written,
            !manager@.rebuild_failed,
    {
        let records: Vec<u32> = vec![0u32; MAX_TYPE_BUFFER_DATA];
        assert(records@ =~= Seq::new(MAX_TYPE_BUFFER_DATA as nat, |i: int| 0u32));
        ComputeResourceManager {
            physics: PhysicsData::new(),
            records,
            resources,
            bind_group: resources,
            uniforms: ComputeUniforms { time: 0, delta_time: 0 },
            uniforms_written: false,
            rebuild_failed: false,
        }
    }

    /// The slot table.
    pub fn physics(&self) -> (physics: &PhysicsData)
        ensures
            physics@ == self@.physics,
    {
        &self.physics
    }

    /// The words of the physics record buffer.
    pub fn records(&self) -> (records: &Vec<u32>)
        ensures
            records@ == self@.records,
    {
        &self.records
    }

    /// The bytes of the physics record buffer, as they are copied to the
    /// device: the memory image of its words.
    pub fn record_image(&self) -> (bytes: Vec<u8>)
        ensures
            bytes@.len() == 4 * self@.records.len(),
            is_native_image(self@.records, bytes@),
    {
        words_to_bytes(&self.records)
    }

    /// The resources that exist now.
    pub fn resources(&self) -> (resources: BoundResources)
        ensures
            resources == self@.resources,
    {
        self.resources
    }

    /// The resources that the bind group refers to.
    pub fn bind_group(&self) -> (bound: BoundResources)
        ensures
            bound == self@.bind_group,
    {
        self.bind_group
    }

    /// The uniforms that were written last.
    pub fn uniforms(&self) -> (uniforms: ComputeUniforms)
        ensures
            uniforms == self@.uniforms,
    {
        self.uniforms
    }

    /// Gives `entity` a slot of the physics record buffer, as the slot table
    /// does. A refused entity takes no part in the physics dispatch of this
    /// frame; nothing else changes.
    pub fn allocate_slot(&mut self, entity: u64) -> (result: Result<SlotId, CapacityExceeded>)
        requires
            old(self).wf(),
        ensures
            final(self).wf(),
            final(self)@ == (ResourceManagerView {
                physics: old(self)@.physics.allocate(entity),
                ..old(self)@
            }),
            match result {
                Ok(slot) => old(self)@.physics.allocation(entity) == Some(slot.index),
                Err(_) => old(self)@.physics.allocation(entity).is_none(),
            },
    {
        self.physics.allocate_slot(entity)
    }

    /// Releases the slot of `entity`, as the slot table does.
    pub fn free_slot(&mut self, entity: u64) -> (released: Option<SlotId>)
        requires
            old(self).wf(),
        ensures
            final(self).wf(),
            final(self)@ == (ResourceManagerView {
                physics: old(self)@.physics.free(entity),
                ..old(self)@
            }),
            released == (if old(self)@.physics.slots.contains_key(entity) {
                Some(SlotId { index: old(self)@.physics.slots[entity] })
            } else {
                None
            }),
    {
        self.physics.free_slot(entity)
    }

    /// Enters the physics state of `entity` for the dispatch of this frame:
    /// gives the entity a slot, as `allocate_slot` does, and writes the record
    /// at that slot. An entity that is refused for want of a slot is not
    /// simulated this frame: no record is written for it, and nothing else
    /// changes.
    pub fn stage_record(&mut self, entity: u64, record: &PhysicsRecord) -> (result: Result<
        SlotId,
        CapacityExceeded,
    >)
        requires
            old(self).wf(),
        ensures
            final(self).wf(),
            final(self)@ == staged(old(self)@, entity, *record),
            match result {
                Ok(slot) => old(self)@.physics.allocation(entity) == Some(slot.index),
                Err(_) => old(self)@.physics.allocation(entity).is_none(),
            },
    {
        match self.physics.allocate_slot(entity) {
            Ok(slot) => {
                proof {
                    lemma_allocation_is_in_range(old(self)@.physics, entity);
                }
                let written: bool = write_record(&mut self.records, slot, record);
                assert(written);
                proof {
                    assert(record_words(*record).len() == RECORD_WORDS);
                }
                Ok(slot)
            },
            Err(error) => Err(error),
        }
    }

    /// Starts a frame: its uniforms are not written yet, and no failure of
    /// the frame before counts any more.
    pub fn begin_frame(&mut self)
        ensures
            final(self)@ == (ResourceManagerView {
                uniforms_written: false,
                rebuild_failed: false,
                ..old(self)@
            }),
    {
        self.uniforms_written = false;
        self.rebuild_failed = false;
    }

    /// Records that the device could not create the resources it was asked
    /// for. Nothing is dispatched in this frame; every resource and the bind
    /// group stay as they are for the next.
    pub fn fail_rebuild(&mut self)
        ensures
            final(self)@ == (ResourceManagerView { rebuild_failed: true, ..old(self)@ }),
            !final(self)@.ready(),
    {
        self.rebuild_failed = true;
    }

    /// Writes the uniforms of the frame.
    pub fn update_uniforms(&mut self, time: u32, delta_time: u32)
        ensures
            final(self)@ == (ResourceManagerView {
                uniforms: ComputeUniforms { time, delta_time },
                uniforms_written: true,
                ..old(self)@
            }),
    {
        self.uniforms = ComputeUniforms { time, delta_time };
        self.uniforms_written = true;
    }

    /// Puts the resources of a new world, which are all complete, in the
    /// place of those of the world before, and hands the old ones back to be
    /// released. The bind group still refers to the old ones until it is
    /// rebuilt.
    pub fn swap_world(&mut self, world: WorldResources) -> (released: WorldResources)
        ensures
            released == old(self)@.resources.world,
            final(self)@ == (ResourceManagerView {
                resources: BoundResources { world, ..old(self)@.resources },
                ..old(self)@
            }),
    {
        let released: WorldResources = self.resources.world;
        self.resources.world = world;
        released
    }

    /// Whether the bind group refers to the resources that exist now.
    pub fn bind_group_is_current(&self) -> (current: bool)
        ensures
            current == self@.bind_group_current(),
    {
        self.bind_group.same_as(&self.resources)
    }

    /// Makes the bind group refer to the resources that exist now, and to
    /// nothing else.
    pub fn rebuild_bind_group(&mut self)
        ensures
            final(self)@ == (ResourceManagerView {
                bind_group: old(self)@.resources,
                ..old(self)@
            }),
            final(self)@.bind_group_current(),
    {
        self.bind_group = self.resources;
    }

    /// Whether a frame can be dispatched.
    pub fn is_ready(&self) -> (ready: bool)
        ensures
            ready == self@.ready(),
    {
        self.uniforms_written && !self.rebuild_failed && self.bind_group_is_current()
    }
}

/// After a world has been swapped in and the bind group rebuilt, the bind
/// group refers to the new world and to none of the resources of the old one
/// that the new one does not share; what was handed back for release is the
/// old world, as many resources as came in.
pub proof fn lemma_swap_releases_old_world(
    before: ResourceManagerView,
    world: WorldResources,
    id: u64,
)
    requires
        before.resources.world.holds(id),
        !world.holds(id),
    ensures
        ({
            let swapped = ResourceManagerView {
                resources: BoundResources { world, ..before.resources },
                ..before
            };
            let rebuilt = ResourceManagerView { bind_group: swapped.resources, ..swapped };
            &&& rebuilt.bind_group_current()
            &&& rebuilt.bind_group.world == world
            &&& !rebuilt.bind_group.world.holds(id)
            &&& rebuilt.bind_group.uniform_buffer == before.resources.uniform_buffer
            &&& rebuilt.bind_group.physics_buffer == before.resources.physics_buffer
            &&& rebuilt.bind_group.animation_buffer == before.resources.animation_buffer
            &&& rebuilt.bind_group.texture_sampler == before.resources.texture_sampler
        }),
{
}

} // verus!
