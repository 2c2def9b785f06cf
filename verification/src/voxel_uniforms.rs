//! The frame state that is mirrored on the device: palette, portals, the
//! tables of the grid, the sizes, and the resident chunks.

use vstd::prelude::*;
use crate::chunk_streamer::{ChunkCoord, ChunkInfo, ChunkStreamer, window};
use crate::grid_hierarchy::{GridHierarchy, GridHierarchyView, PalleteEntry};
use crate::physics_record::Vec3Bits;

verus! {

/// Number of portals that the uniforms hold.
pub const MAX_PORTALS: usize = 32;

/// Number of chunks along one edge of the world.
pub const WORLD_CHUNKS_PER_EDGE: u32 = 3;

/// A portal as the device sees it: a 4 x 4 transformation, a position and a
/// normal, all floats by their bit patterns.
#[derive(Clone, Copy, Debug, PartialEq, Eq)]
pub struct ExtractedPortal {
    pub transformation: [u32; 16],
    pub position: Vec3Bits,
    pub normal: Vec3Bits,
}

/// The frame state of the voxel world.
#[derive(Clone, Debug, PartialEq, Eq)]
pub struct VoxelUniforms {
    pub pallete: [PalleteEntry; 256],
    pub portals: [ExtractedPortal; 32],
    pub levels: [u32; 8],
    pub offsets: [u32; 8],
    pub texture_size: u32,
    pub chunk_size: u32,
    pub world_size: u32,
    pub active_chunks: [ChunkInfo; 27],
}

/// The portal of an unused entry: all zeros.
pub open spec fn blank_portal() -> ExtractedPortal {
    ExtractedPortal {
        transformation: vstd::array::spec_array_fill_for_copy_type::<u32, 16>(0u32),
        position: Vec3Bits::zero(),
        normal: Vec3Bits::zero(),
    }
}

/// The portal entries of the uniforms for the portals of the scene: the
/// first `MAX_PORTALS` of them in their order, then blank entries. Portals
/// beyond that number are left out.
pub open spec fn capped_portals(portals: Seq<ExtractedPortal>) -> Seq<ExtractedPortal> {
    Seq::new(
        MAX_PORTALS as nat,
        |i: int|
            if i < portals.len() {
                portals[i]
            } else {
                blank_portal()
            },
    )
}

/// Number of portals of the scene that the uniforms leave out.
pub open spec fn dropped_portals(count: nat) -> nat {
    if count > MAX_PORTALS {
        (count - MAX_PORTALS) as nat
    } else {
        0
    }
}

/// The uniforms of a world: the palette and the tables of its grid, chunks of
/// the size of its chunk volume, a world of three chunks along each edge, the
/// window of chunks around `center`, and the portals of the scene.
pub open spec fn uniforms_of(
    grid: GridHierarchyView,
    center: ChunkCoord,
    portals: Seq<ExtractedPortal>,
    uniforms: VoxelUniforms,
) -> bool {
    &&& uniforms.pallete@ == grid.palette
    &&& uniforms.portals@ == capped_portals(portals)
    &&& uniforms.levels@ == grid.levels
    &&& uniforms.offsets@ == grid.offsets
    &&& uniforms.texture_size == grid.texture_size
    &&& uniforms.chunk_size == grid.texture_size
    &&& uniforms.world_size == WORLD_CHUNKS_PER_EDGE * grid.texture_size
    &&& uniforms.active_chunks@ == window(center, grid.texture_size)
}

impl ExtractedPortal {
    /// The portal of an unused entry.
    pub fn blank() -> (portal: ExtractedPortal)
        ensures
            portal == blank_portal(),
    {
        let portal = ExtractedPortal {
            transformation: [0u32; 16],
            position: Vec3Bits { x: 0, y: 0, z: 0 },
            normal: Vec3Bits { x: 0, y: 0, z: 0 },
        };
        assert(portal.transformation =~= blank_portal().transformation);
        portal
    }
}

/// The portal entries for the portals of the scene.
pub fn cap_portals(portals: &Vec<ExtractedPortal>) -> (entries: [ExtractedPortal; 32])
    ensures
        entries@ == capped_portals(portals@),
{
    let mut entries: [ExtractedPortal; 32] = [ExtractedPortal::blank(); 32];
    let mut i: usize = 0;
    while i < MAX_PORTALS && i < portals.len()
        invariant
            i <= MAX_PORTALS,
            i <= portals@.len(),
            forall|j: int| 0 <= j < i ==> #[trigger] entries@[j] == portals@[j],
            forall|j: int| i <= j < MAX_PORTALS ==> #[trigger] entries@[j] == blank_portal(),
        decreases MAX_PORTALS - i,
    {
        entries[i] = portals[i];
        i += 1;
    }
    assert(entries@ =~= capped_portals(portals@));
    entries
}

impl VoxelUniforms {
    /// The uniforms of the world of `grid`, with the window of chunks around
    /// `center` and the portals of the scene.
    pub fn build(grid: &GridHierarchy, center: ChunkCoord, portals: &Vec<ExtractedPortal>)
        -> (uniforms: VoxelUniforms)
        ensures
            uniforms_of(grid@, center, portals@, uniforms),
            uniforms.world_size == 3 * uniforms.chunk_size,
    {
        let size: u32 = grid.texture_size();
        let streamer = ChunkStreamer::new(size);
        VoxelUniforms {
            pallete: *grid.palette(),
            portals: cap_portals(portals),
            levels: grid.levels(),
            offsets: grid.offsets(),
            texture_size: size,
            chunk_size: size,
            world_size: WORLD_CHUNKS_PER_EDGE * size,
            active_chunks: streamer.compute_window(center),
        }
    }

    /// Replaces the portals by those of the scene and says how many of them
    /// were left out for want of room.
    pub fn set_portals(&mut self, portals: &Vec<ExtractedPortal>) -> (dropped: usize)
        ensures
            final(self).portals@ == capped_portals(portals@),
            dropped == dropped_portals(portals@.len()),
            *final(self) == (VoxelUniforms { portals: final(self).portals, ..*old(self) }),
    {
        self.portals = cap_portals(portals);
        if portals.len() > MAX_PORTALS {
            portals.len() - MAX_PORTALS
        } else {
            0
        }
    }

    /// Moves the window of resident chunks to the chunks around `center`.
    pub fn set_window(&mut self, streamer: &ChunkStreamer, center: ChunkCoord)
        ensures
            final(self).active_chunks@ == window(center, streamer@.chunk_size),
            *final(self) == (VoxelUniforms {
                active_chunks: final(self).active_chunks,
                ..*old(self)
            }),
    {
        self.active_chunks = streamer.compute_window(center);
    }
}

} // verus!
