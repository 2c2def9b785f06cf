use voxel_pipeline::compute_pipeline::{ComputePipeline, Stage, STAGE_COUNT};
use voxel_pipeline::compute_resources::{
    BoundResources, ComputeResourceManager, ComputeUniforms, WorldResources,
};
use voxel_pipeline::physics_record::{
    CollisionEffect, Int3, PhysicsRecord, PhysicsResult, Vec3Bits,
};
use voxel_pipeline::readback::{decode_results, Hit};
use voxel_pipeline::slot_table::{CapacityExceeded, SlotId, MAX_RECORDS};

fn world(first: u64) -> WorldResources {
    let mut chunk_textures = [0u64; 27];
    for (i, texture) in chunk_textures.iter_mut().enumerate() {
        *texture = first + 1 + i as u64;
    }
    WorldResources { grid_hierarchy: first, chunk_textures }
}

fn resources() -> BoundResources {
    BoundResources {
        uniform_buffer: 1,
        physics_buffer: 2,
        animation_buffer: 3,
        texture_sampler: 4,
        world: world(100),
    }
}

fn ready_manager() -> ComputeResourceManager {
    let mut manager = ComputeResourceManager::new(resources());
    manager.begin_frame();
    manager.update_uniforms(1.5f32.to_bits(), 0.016f32.to_bits());
    manager
}

fn result_bytes(results: &[[f32; 6]]) -> Vec<u8> {
    results.iter().flatten().flat_map(|value| value.to_bits().to_ne_bytes()).collect()
}

const ALL_STAGES: [Stage; 5] =
    [Stage::Clear, Stage::Rebuild, Stage::Automata, Stage::Physics, Stage::Animation];

#[test]
fn a_frame_dispatches_the_five_stages_in_order() {
    assert_eq!(STAGE_COUNT, 5);
    assert_eq!(ComputePipeline::plan_frame(true), ALL_STAGES.to_vec());
    assert_eq!(ComputePipeline::plan_frame(false), Vec::new());
    for (index, stage) in ALL_STAGES.iter().enumerate() {
        assert_eq!(stage.index(), index);
        assert_eq!(stage.next(), ALL_STAGES.get(index + 1).copied());
    }
}

#[test]
fn a_frame_without_uniforms_is_skipped() {
    let mut manager = ComputeResourceManager::new(resources());
    let mut pipeline = ComputePipeline::new();
    assert!(!manager.is_ready());
    assert_eq!(pipeline.submit_frame(&manager), Vec::new());
    assert_eq!(pipeline.frames_submitted(), 0);
    manager.update_uniforms(7, 9);
    assert_eq!(manager.uniforms(), ComputeUniforms { time: 7, delta_time: 9 });
    assert!(manager.is_ready());
    assert_eq!(pipeline.submit_frame(&manager), ALL_STAGES.to_vec());
    assert_eq!(pipeline.frames_submitted(), 1);
    manager.begin_frame();
    assert!(!manager.is_ready());
    assert_eq!(manager.uniforms(), ComputeUniforms { time: 7, delta_time: 9 });
    assert_eq!(pipeline.submit_frame(&manager), Vec::new());
    assert_eq!(pipeline.frames_submitted(), 1);
}

#[test]
fn a_swapped_world_is_bound_only_after_the_rebuild() {
    let mut manager = ready_manager();
    let mut pipeline = ComputePipeline::new();
    assert!(manager.bind_group_is_current());
    assert_eq!(manager.bind_group(), resources());
    let released = manager.swap_world(world(500));
    assert_eq!(released, world(100));
    assert_eq!(manager.resources().world, world(500));
    assert_eq!(manager.bind_group().world, world(100));
    assert!(!manager.bind_group_is_current());
    assert!(!manager.is_ready());
    assert_eq!(pipeline.submit_frame(&manager), Vec::new());
    manager.rebuild_bind_group();
    assert!(manager.bind_group_is_current());
    assert_eq!(pipeline.submit_frame(&manager), ALL_STAGES.to_vec());
    let bound = manager.bind_group();
    assert_eq!(bound.world, world(500));
    let mut old_ids = vec![released.grid_hierarchy];
    old_ids.extend_from_slice(&released.chunk_textures);
    assert_eq!(old_ids.len(), 28);
    let mut new_ids = vec![bound.world.grid_hierarchy];
    new_ids.extend_from_slice(&bound.world.chunk_textures);
    assert_eq!(new_ids.len(), old_ids.len());
    for id in old_ids {
        assert!(!new_ids.contains(&id));
        assert!(![bound.uniform_buffer, bound.physics_buffer, bound.animation_buffer, bound.texture_sampler].contains(&id));
    }
    assert_eq!(bound.uniform_buffer, 1);
    assert_eq!(bound.physics_buffer, 2);
    assert_eq!(bound.animation_buffer, 3);
    assert_eq!(bound.texture_sampler, 4);
}

#[test]
fn one_changed_texture_makes_the_bind_group_stale() {
    let mut manager = ready_manager();
    let mut changed = world(100);
    changed.chunk_textures[26] = 9999;
    assert!(!changed.same_as(&world(100)));
    assert!(changed.same_as(&changed.clone()));
    manager.swap_world(changed);
    assert!(!manager.bind_group_is_current());
    manager.swap_world(world(100));
    assert!(manager.bind_group_is_current());
}

#[test]
fn two_stationary_entities_in_empty_space_hit_nothing() {
    let mut manager = ComputeResourceManager::new(resources());
    let mut pipeline = ComputePipeline::new();
    assert_eq!(manager.allocate_slot(11), Ok(SlotId { index: 0 }));
    assert_eq!(manager.allocate_slot(22), Ok(SlotId { index: 1 }));
    manager.begin_frame();
    manager.update_uniforms(0, 0);
    assert_eq!(pipeline.submit_frame(&manager), ALL_STAGES.to_vec());
    let pending = pipeline.request_readback(&manager).expect("a frame was submitted");
    assert_eq!(pending.frame(), 1);
    assert_eq!(pending.slot_count(), 2);
    assert!(pipeline.poll(&pending, None).is_none());
    let delivered = vec![0u8; 2 * 24];
    let results = pipeline.poll(&pending, Some(&delivered)).expect("the copy is complete");
    assert_eq!(results.frame(), 1);
    assert_eq!(results.hits().len(), 2);
    let zero = Vec3Bits { x: 0, y: 0, z: 0 };
    for (hit, entity) in results.hits().iter().zip([11u64, 22]) {
        assert_eq!(hit.entity, entity);
        assert_eq!(hit.result.hit_normal, zero);
        assert!(!hit.result.collided());
    }
    assert_eq!(results.hit_of(11).map(|result| result.collided()), Some(false));
    assert_eq!(results.hit_of(22).map(|result| result.hit_normal), Some(zero));
    assert_eq!(results.hit_of(33), None);
    assert!(pipeline.poll(&pending, Some(&delivered)).is_none());
}

#[test]
fn a_struck_face_decodes_to_its_unit_normal() {
    let mut manager = ready_manager();
    let mut pipeline = ComputePipeline::new();
    manager.allocate_slot(5).unwrap();
    manager.allocate_slot(6).unwrap();
    manager.allocate_slot(7).unwrap();
    manager.free_slot(6).unwrap();
    pipeline.submit_frame(&manager);
    let pending = pipeline.request_readback(&manager).unwrap();
    let delivered = result_bytes(&[
        [1.0, 2.0, 3.0, 0.0, 1.0, 0.0],
        [9.0, 9.0, 9.0, 1.0, 0.0, 0.0],
        [4.0, 5.0, 6.0, 0.0, 0.0, 0.0],
    ]);
    let results = pipeline.poll(&pending, Some(&delivered)).unwrap();
    assert_eq!(
        results.hits(),
        &vec![
            Hit {
                entity: 5,
                slot: SlotId { index: 0 },
                result: PhysicsResult {
                    hit_position: Vec3Bits { x: 1.0f32.to_bits(), y: 2.0f32.to_bits(), z: 3.0f32.to_bits() },
                    hit_normal: Vec3Bits { x: 0, y: 1.0f32.to_bits(), z: 0 },
                },
            },
            Hit {
                entity: 7,
                slot: SlotId { index: 2 },
                result: PhysicsResult {
                    hit_position: Vec3Bits { x: 4.0f32.to_bits(), y: 5.0f32.to_bits(), z: 6.0f32.to_bits() },
                    hit_normal: Vec3Bits { x: 0, y: 0, z: 0 },
                },
            },
        ]
    );
    let struck = results.hit_of(5).unwrap();
    assert!(struck.collided());
    let normal = [
        f32::from_bits(struck.hit_normal.x),
        f32::from_bits(struck.hit_normal.y),
        f32::from_bits(struck.hit_normal.z),
    ];
    assert_eq!(normal, [0.0, 1.0, 0.0]);
    assert!(!results.hit_of(7).unwrap().collided());
    assert_eq!(results.hit_of(6), None);
}

#[test]
fn nothing_is_read_back_before_the_first_frame() {
    let manager = ready_manager();
    let mut pipeline = ComputePipeline::new();
    assert!(pipeline.request_readback(&manager).is_none());
    pipeline.submit_frame(&manager);
    assert!(pipeline.request_readback(&manager).is_some());
}

#[test]
fn a_new_readback_replaces_the_one_before() {
    let mut manager = ready_manager();
    let mut pipeline = ComputePipeline::new();
    manager.allocate_slot(1).unwrap();
    pipeline.submit_frame(&manager);
    let first = pipeline.request_readback(&manager).unwrap();
    pipeline.submit_frame(&manager);
    pipeline.submit_frame(&manager);
    let second = pipeline.request_readback(&manager).unwrap();
    assert_eq!(first.frame(), 1);
    assert_eq!(second.frame(), 3);
    assert_eq!(first.ticket(), 0);
    assert_eq!(second.ticket(), 1);
    let delivered = vec![0u8; 24];
    assert!(pipeline.poll(&first, Some(&delivered)).is_none());
    let results = pipeline.poll(&second, Some(&delivered)).unwrap();
    assert_eq!(results.frame(), 3);
    assert!(results.frame() <= pipeline.frames_submitted());
    assert!(pipeline.poll(&second, Some(&delivered)).is_none());
}

#[test]
fn a_readback_of_another_pipeline_is_not_decoded() {
    let manager = ready_manager();
    let mut ahead = ComputePipeline::new();
    ahead.submit_frame(&manager);
    ahead.submit_frame(&manager);
    let pending = ahead.request_readback(&manager).unwrap();
    let mut behind = ComputePipeline::new();
    behind.submit_frame(&manager);
    let own = behind.request_readback(&manager).unwrap();
    assert_eq!(own.ticket(), pending.ticket());
    assert!(behind.poll(&pending, Some(&[])).is_none());
    assert!(behind.poll(&own, Some(&[])).is_some());
}

#[test]
fn delivered_bytes_must_cover_every_slot() {
    let mut manager = ready_manager();
    let mut pipeline = ComputePipeline::new();
    manager.allocate_slot(1).unwrap();
    manager.allocate_slot(2).unwrap();
    pipeline.submit_frame(&manager);
    let pending = pipeline.request_readback(&manager).unwrap();
    assert!(pipeline.poll(&pending, Some(&vec![0u8; 47])).is_none());
    assert!(pipeline.poll(&pending, Some(&vec![0u8; 44])).is_none());
    assert!(pipeline.poll(&pending, Some(&vec![0u8; 49])).is_none());
    assert!(pipeline.poll(&pending, Some(&vec![0u8; 52])).is_some());
    assert!(decode_results(&pending, &vec![0u32; 11]).is_none());
    let decoded = decode_results(&pending, &(0..12).collect()).unwrap();
    assert_eq!(decoded.hits()[1].result.hit_normal, Vec3Bits { x: 9, y: 10, z: 11 });
}

#[test]
fn the_readback_keeps_the_owners_of_its_frame() {
    let mut manager = ready_manager();
    let mut pipeline = ComputePipeline::new();
    manager.allocate_slot(1).unwrap();
    manager.allocate_slot(2).unwrap();
    pipeline.submit_frame(&manager);
    let pending = pipeline.request_readback(&manager).unwrap();
    manager.free_slot(1).unwrap();
    manager.allocate_slot(3).unwrap();
    let results = pipeline.poll(&pending, Some(&vec![0u8; 48])).unwrap();
    let entities: Vec<u64> = results.hits().iter().map(|hit| hit.entity).collect();
    assert_eq!(entities, vec![1, 2]);
}

#[test]
fn a_refused_entity_changes_nothing_in_the_manager() {
    let mut manager = ready_manager();
    for entity in 0..MAX_RECORDS as u64 {
        manager.allocate_slot(entity).unwrap();
    }
    assert_eq!(manager.allocate_slot(u64::MAX), Err(CapacityExceeded));
    assert_eq!(manager.physics().live_slots(), MAX_RECORDS);
    assert_eq!(manager.physics().slot_of(u64::MAX), None);
    assert!(manager.is_ready());
    assert_eq!(manager.free_slot(3), Some(SlotId { index: 3 }));
    assert_eq!(manager.allocate_slot(u64::MAX), Ok(SlotId { index: 3 }));
}

#[test]
fn a_staged_record_stands_at_the_slot_of_its_entity() {
    let record = |n: u32| PhysicsRecord {
        position: Vec3Bits { x: n, y: n + 1, z: n + 2 },
        velocity: Vec3Bits { x: 0, y: 0, z: 0 },
        half_size: Int3 { x: 1, y: 1, z: 1 },
        collision_effect: CollisionEffect::NoEffect,
    };
    let mut manager = ready_manager();
    assert_eq!(manager.records().len(), 1_000_000);
    assert!(manager.records().iter().all(|word| *word == 0));
    assert_eq!(manager.stage_record(8, &record(100)), Ok(SlotId { index: 0 }));
    assert_eq!(manager.stage_record(9, &record(200)), Ok(SlotId { index: 1 }));
    assert_eq!(manager.stage_record(8, &record(300)), Ok(SlotId { index: 0 }));
    assert_eq!(&manager.records()[..14], &record(300).encode()[..]);
    assert_eq!(&manager.records()[14..28], &record(200).encode()[..]);
    assert!(manager.records()[28..].iter().all(|word| *word == 0));
    assert_eq!(manager.physics().live_slots(), 2);
    let image = manager.record_image();
    assert_eq!(image.len(), 4_000_000);
    assert_eq!(&image[..4], &300u32.to_ne_bytes());
    assert_eq!(&image[56..60], &200u32.to_ne_bytes());
}

#[test]
fn a_refused_entity_gets_no_record() {
    let record = PhysicsRecord {
        position: Vec3Bits { x: 7, y: 7, z: 7 },
        velocity: Vec3Bits { x: 7, y: 7, z: 7 },
        half_size: Int3 { x: 7, y: 7, z: 7 },
        collision_effect: CollisionEffect::NoEffect,
    };
    let mut manager = ready_manager();
    for entity in 0..MAX_RECORDS as u64 {
        manager.allocate_slot(entity).unwrap();
    }
    let before = manager.records().clone();
    assert_eq!(manager.stage_record(u64::MAX, &record), Err(CapacityExceeded));
    assert_eq!(manager.records(), &before);
    assert_eq!(manager.physics().slot_of(u64::MAX), None);
    assert_eq!(manager.stage_record(5, &record), Ok(SlotId { index: 5 }));
    assert_eq!(manager.records()[14 * 5], 7);
}
