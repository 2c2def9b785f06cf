//! Host-side core of a streamed, hierarchical voxel world: the grid
//! hierarchy and its chunk window, the table that maps simulated entities to
//! device buffer slots, the per-frame compute schedule, and the decoding of
//! physics results read back from the device.

pub mod chunk_streamer;
pub mod compute_pipeline;
pub mod compute_resources;
pub mod device_bytes;
pub mod entity_slots;
pub mod grid_hierarchy;
pub mod physics_record;
pub mod readback;
pub mod scene;
pub mod slot_table;
pub mod voxel_source;
pub mod voxel_uniforms;
pub mod world_loader;
