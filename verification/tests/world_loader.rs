use voxel_pipeline::compute_resources::{BoundResources, ComputeResourceManager, WorldResources};
use voxel_pipeline::world_loader::{
    realize_load, LoadVoxelWorld, ResourceRebuildFailure, WorldLoadError, WorldLoader, WorldState,
};

fn world(first: u64) -> WorldResources {
    let mut chunk_textures = [0u64; 27];
    for (i, texture) in chunk_textures.iter_mut().enumerate() {
        *texture = first + 1 + i as u64;
    }
    WorldResources { grid_hierarchy: first, chunk_textures }
}

fn manager() -> ComputeResourceManager {
    ComputeResourceManager::new(BoundResources {
        uniform_buffer: 1,
        physics_buffer: 2,
        animation_buffer: 3,
        texture_sampler: 4,
        world: world(100),
    })
}

fn small_source() -> Vec<u8> {
    let mut bytes = Vec::new();
    bytes.extend_from_slice(b"VOX ");
    bytes.extend_from_slice(&150u32.to_le_bytes());
    bytes.extend_from_slice(b"MAIN");
    bytes.extend_from_slice(&0u32.to_le_bytes());
    bytes.extend_from_slice(&44u32.to_le_bytes());
    bytes.extend_from_slice(b"SIZE");
    bytes.extend_from_slice(&12u32.to_le_bytes());
    bytes.extend_from_slice(&0u32.to_le_bytes());
    for _ in 0..3 {
        bytes.extend_from_slice(&16u32.to_le_bytes());
    }
    bytes.extend_from_slice(b"XYZI");
    bytes.extend_from_slice(&8u32.to_le_bytes());
    bytes.extend_from_slice(&0u32.to_le_bytes());
    bytes.extend_from_slice(&1u32.to_le_bytes());
    bytes.extend_from_slice(&[3, 0, 0, 77]);
    bytes
}

fn file() -> LoadVoxelWorld {
    LoadVoxelWorld::File("assets/monu9.vox".to_string())
}

#[test]
fn a_request_is_realized_as_its_grid() {
    let grid = realize_load(&LoadVoxelWorld::Empty(64), None).unwrap();
    assert_eq!(grid.texture_size(), 64);
    assert_eq!(grid.levels(), [6, 5, 4, 3, 2, 1, 0, 0]);
    let source = small_source();
    let grid = realize_load(&file(), Some(&source)).unwrap();
    assert_eq!(grid.texture_size(), 16);
    assert_eq!(grid.texture_data()[6], 77);
    assert_eq!(grid.texture_data()[7], 16);
}

#[test]
fn each_load_error_has_its_cause() {
    assert_eq!(realize_load(&file(), None).err(), Some(WorldLoadError::NotFound));
    assert_eq!(realize_load(&file(), Some(b"garbage")).err(), Some(WorldLoadError::Malformed));
    let mut odd = small_source();
    for at in [32usize, 36, 40] {
        odd[at] = 17;
    }
    assert_eq!(realize_load(&file(), Some(&odd)).err(), Some(WorldLoadError::UnsupportedSize));
    assert_eq!(
        realize_load(&LoadVoxelWorld::Empty(100), None).err(),
        Some(WorldLoadError::UnsupportedSize)
    );
    assert_eq!(
        realize_load(&LoadVoxelWorld::Empty(0), Some(&small_source())).err(),
        Some(WorldLoadError::UnsupportedSize)
    );
    assert_eq!(
        realize_load(&LoadVoxelWorld::NoRequest, None).err(),
        Some(WorldLoadError::NotFound)
    );
}

#[test]
fn a_world_goes_from_request_to_active() {
    let mut loader = WorldLoader::new();
    let mut resources = manager();
    assert_eq!(loader.state(), WorldState::Idle);
    loader.request_load(LoadVoxelWorld::Empty(32));
    assert_eq!(loader.state(), WorldState::Requested);
    assert_eq!(loader.request(), &LoadVoxelWorld::Empty(32));
    assert_eq!(loader.begin_build(None), Ok(true));
    assert_eq!(loader.state(), WorldState::Building);
    assert_eq!(loader.request(), &LoadVoxelWorld::NoRequest);
    assert_eq!(loader.building().map(|grid| grid.texture_size()), Some(32));
    assert!(loader.active().is_none());
    assert_eq!(resources.resources().world, world(100));
    let released = loader.finish_build(&mut resources, Some(world(200)));
    assert_eq!(released, Ok(Some(world(100))));
    assert_eq!(loader.state(), WorldState::Active);
    assert!(loader.building().is_none());
    assert_eq!(loader.active().map(|grid| grid.texture_size()), Some(32));
    assert_eq!(resources.resources().world, world(200));
    assert!(!resources.bind_group_is_current());
    resources.rebuild_bind_group();
    assert_eq!(resources.bind_group().world, world(200));
}

#[test]
fn a_later_request_replaces_a_pending_one() {
    let mut loader = WorldLoader::new();
    loader.request_load(LoadVoxelWorld::Empty(8));
    loader.request_load(LoadVoxelWorld::Empty(128));
    assert_eq!(loader.begin_build(None), Ok(true));
    assert_eq!(loader.building().map(|grid| grid.texture_size()), Some(128));
    assert_eq!(loader.begin_build(None), Ok(false));
    assert_eq!(loader.state(), WorldState::Building);
}

#[test]
fn a_failed_load_leaves_the_active_world() {
    let mut loader = WorldLoader::new();
    let mut resources = manager();
    loader.request_load(LoadVoxelWorld::Empty(16));
    loader.begin_build(None).unwrap();
    loader.finish_build(&mut resources, Some(world(200))).unwrap();
    resources.rebuild_bind_group();

    loader.request_load(file());
    assert_eq!(loader.state(), WorldState::Requested);
    assert_eq!(loader.begin_build(None), Err(WorldLoadError::NotFound));
    assert_eq!(loader.state(), WorldState::Active);
    assert_eq!(loader.active().map(|grid| grid.texture_size()), Some(16));

    loader.request_load(file());
    assert_eq!(loader.begin_build(Some(b"VOX ")), Err(WorldLoadError::Malformed));
    loader.request_load(LoadVoxelWorld::Empty(3));
    assert_eq!(loader.begin_build(None), Err(WorldLoadError::UnsupportedSize));
    assert_eq!(loader.state(), WorldState::Active);
    assert_eq!(resources.resources().world, world(200));
    assert!(resources.bind_group_is_current());
}

#[test]
fn a_failed_rebuild_leaves_the_resources() {
    let mut loader = WorldLoader::new();
    let mut resources = manager();
    loader.request_load(LoadVoxelWorld::Empty(16));
    loader.begin_build(None).unwrap();
    loader.finish_build(&mut resources, Some(world(200))).unwrap();
    resources.rebuild_bind_group();

    let source = small_source();
    loader.request_load(file());
    assert_eq!(loader.begin_build(Some(&source)), Ok(true));
    assert_eq!(loader.state(), WorldState::Building);
    assert_eq!(loader.active().map(|grid| grid.texture_size()), Some(16));
    assert_eq!(loader.finish_build(&mut resources, None), Err(ResourceRebuildFailure));
    assert_eq!(loader.state(), WorldState::Active);
    assert!(loader.building().is_none());
    assert_eq!(loader.active().map(|grid| grid.texture_size()), Some(16));
    assert_eq!(resources.resources().world, world(200));
    assert!(resources.bind_group_is_current());
    assert_eq!(loader.finish_build(&mut resources, Some(world(300))), Ok(None));
    assert_eq!(resources.resources().world, world(200));
}

#[test]
fn a_failed_rebuild_costs_the_frame_and_no_more() {
    let mut loader = WorldLoader::new();
    let mut resources = manager();
    resources.begin_frame();
    resources.update_uniforms(0, 0);
    assert!(resources.is_ready());
    loader.request_load(LoadVoxelWorld::Empty(16));
    loader.begin_build(None).unwrap();
    assert_eq!(loader.finish_build(&mut resources, None), Err(ResourceRebuildFailure));
    assert!(!resources.is_ready());
    assert!(resources.bind_group_is_current());
    resources.begin_frame();
    assert!(!resources.is_ready());
    resources.update_uniforms(0, 0);
    assert!(resources.is_ready());
    resources.fail_rebuild();
    assert!(!resources.is_ready());
}

#[test]
fn a_request_during_a_build_waits_for_its_turn() {
    let mut loader = WorldLoader::new();
    let mut resources = manager();
    loader.request_load(LoadVoxelWorld::Empty(8));
    loader.begin_build(None).unwrap();
    loader.request_load(LoadVoxelWorld::Empty(64));
    assert_eq!(loader.state(), WorldState::Building);
    loader.finish_build(&mut resources, Some(world(200))).unwrap();
    assert_eq!(loader.state(), WorldState::Requested);
    assert_eq!(loader.active().map(|grid| grid.texture_size()), Some(8));
    loader.begin_build(None).unwrap();
    let released = loader.finish_build(&mut resources, Some(world(300))).unwrap();
    assert_eq!(released, Some(world(200)));
    assert_eq!(loader.active().map(|grid| grid.texture_size()), Some(64));
    assert_eq!(loader.state(), WorldState::Active);
}
