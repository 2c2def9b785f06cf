//! The window of chunk volumes that is resident on the device: the 3 x 3 x 3
//! neighbourhood of a centre chunk, each chunk in a texture slot of its own.

use vstd::prelude::*;
use crate::grid_hierarchy::is_supported_size;

verus! {

/// Number of chunks in the window, and of texture slots.
pub const WINDOW_CHUNKS: usize = 27;

/// The coordinate of a chunk, counted in chunks.
#[derive(Clone, Copy, Debug, PartialEq, Eq, Structural)]
pub struct ChunkCoord {
    pub x: i32,
    pub y: i32,
    pub z: i32,
}

/// A position in the world, counted in voxels.
#[derive(Clone, Copy, Debug, PartialEq, Eq, Structural)]
pub struct VoxelPosition {
    pub x: i64,
    pub y: i64,
    pub z: i64,
}

/// A resident chunk: the world position of its origin, and the texture slot
/// that holds its volume.
#[derive(Clone, Copy, Debug, PartialEq, Eq, Structural)]
pub struct ChunkInfo {
    pub position: VoxelPosition,
    pub texture_index: u32,
}

/// One of the three steps -1, 0 and 1 that an offset in the window takes
/// along an axis.
pub open spec fn is_step(d: int) -> bool {
    -1 <= d <= 1
}

/// The place in the window of the chunk at offset `(dx, dy, dz)` from the
/// centre.
pub open spec fn window_index(dx: int, dy: int, dz: int) -> int {
    (dx + 1) + 3 * (dy + 1) + 9 * (dz + 1)
}

/// The offset along `x` of the chunk at place `index` of the window.
pub open spec fn offset_x(index: int) -> int {
    index % 3 - 1
}

/// The offset along `y` of the chunk at place `index` of the window.
pub open spec fn offset_y(index: int) -> int {
    (index / 3) % 3 - 1
}

/// The offset along `z` of the chunk at place `index` of the window.
pub open spec fn offset_z(index: int) -> int {
    index / 9 - 1
}

/// The world position of the origin of the chunk at offset `(dx, dy, dz)`
/// from `center`.
pub open spec fn chunk_origin(center: ChunkCoord, chunk_size: u32, dx: int, dy: int, dz: int)
    -> VoxelPosition {
    VoxelPosition {
        x: ((center.x + dx) * chunk_size) as i64,
        y: ((center.y + dy) * chunk_size) as i64,
        z: ((center.z + dz) * chunk_size) as i64,
    }
}

/// The chunk at place `index` of the window around `center`. Each place has
/// the texture slot of its own number.
pub open spec fn window_entry(center: ChunkCoord, chunk_size: u32, index: int) -> ChunkInfo {
    ChunkInfo {
        position: chunk_origin(
            center,
            chunk_size,
            offset_x(index),
            offset_y(index),
            offset_z(index),
        ),
        texture_index: index as u32,
    }
}

/// The window around `center`.
pub open spec fn window(center: ChunkCoord, chunk_size: u32) -> Seq<ChunkInfo> {
    Seq::new(WINDOW_CHUNKS as nat, |index: int| window_entry(center, chunk_size, index))
}

/// The product of a chunk coordinate next to a centre and a supported chunk
/// size fits in 64 bits.
pub proof fn lemma_origin_fits(c: i32, d: int, chunk_size: u32)
    requires
        is_step(d),
        is_supported_size(chunk_size),
    ensures
        i64::MIN <= (c + d) * chunk_size <= i64::MAX,
{
    let a = c + d;
    let s = chunk_size as int;
    assert(-0x8000_0001 * 512 <= a * s <= 0x8000_0000 * 512) by (nonlinear_arith)
        requires
            -0x8000_0001 <= a <= 0x8000_0000,
            0 <= s <= 512,
    ;
}

/// Keeps track of the centre of the resident window.
pub struct ChunkStreamer {
    chunk_size: u32,
    center: ChunkCoord,
}

/// What a chunk streamer holds.
pub ghost struct ChunkStreamerView {
    /// Edge length of a chunk, in voxels.
    pub chunk_size: u32,
    /// The chunk in the middle of the resident window.
    pub center: ChunkCoord,
}

impl View for ChunkStreamer {
    type V = ChunkStreamerView;

    closed spec fn view(&self) -> ChunkStreamerView {
        ChunkStreamerView { chunk_size: self.chunk_size, center: self.center }
    }
}

/// The chunk that holds a world coordinate: the coordinate divided by the
/// chunk size, rounded down.
pub open spec fn chunk_along(position: i64, chunk_size: u32) -> int {
    position as int / chunk_size as int
}

/// The chunk that holds a world position, if its coordinates fit in 32 bits.
pub open spec fn chunk_holding(position: VoxelPosition, chunk_size: u32) -> Option<ChunkCoord> {
    let x = chunk_along(position.x, chunk_size);
    let y = chunk_along(position.y, chunk_size);
    let z = chunk_along(position.z, chunk_size);
    if i32::MIN <= x <= i32::MAX && i32::MIN <= y <= i32::MAX && i32::MIN <= z <= i32::MAX {
        Some(ChunkCoord { x: x as i32, y: y as i32, z: z as i32 })
    } else {
        None
    }
}

/// The chunk that holds a world coordinate.
fn chunk_index(position: i64, chunk_size: u32) -> (chunk: i64)
    requires
        is_supported_size(chunk_size),
    ensures
        chunk == chunk_along(position, chunk_size),
{
    let size: u64 = chunk_size as u64;
    if position >= 0 {
        ((position as u64) / size) as i64
    } else {
        let below: u64 = (-(position + 1)) as u64;
        let steps: u64 = below / size;
        proof {
            let p = position as int;
            let s = size as int;
            let q = -(steps as int) - 1;
            assert(p == q * s + (s - 1 - (below as int % s))) by (nonlinear_arith)
                requires
                    below as int == -(p + 1),
                    steps as int == below as int / s,
                    q == -(steps as int) - 1,
                    s > 0,
            ;
            vstd::arithmetic::div_mod::lemma_fundamental_div_mod_converse(
                p,
                s,
                q,
                s - 1 - (below as int % s),
            );
        }
        -(steps as i64) - 1
    }
}

/// The world coordinate of the origin of the chunk one step `d` from `c`.
fn origin_along(c: i32, d: i64, chunk_size: u32) -> (origin: i64)
    requires
        is_step(d as int),
        is_supported_size(chunk_size),
    ensures
        origin == (c + d) * chunk_size,
{
    proof {
        lemma_origin_fits(c, d as int, chunk_size);
    }
    (c as i64 + d) * (chunk_size as i64)
}

impl ChunkStreamer {
    /// The chunk size is the edge length of a chunk volume, and so one of the
    /// supported sizes.
    #[verifier::type_invariant]
    spec fn supported(self) -> bool {
        is_supported_size(self.chunk_size)
    }

    /// A streamer for chunks of the given size, centred on the chunk at the
    /// origin.
    pub fn new(chunk_size: u32) -> (streamer: ChunkStreamer)
        requires
            is_supported_size(chunk_size),
        ensures
            streamer@.chunk_size == chunk_size,
            streamer@.center == (ChunkCoord { x: 0, y: 0, z: 0 }),
    {
        ChunkStreamer { chunk_size, center: ChunkCoord { x: 0, y: 0, z: 0 } }
    }

    /// Edge length of a chunk, in voxels.
    pub fn chunk_size(&self) -> (size: u32)
        ensures
            size == self@.chunk_size,
            is_supported_size(size),
    {
        proof {
            use_type_invariant(self);
        }
        self.chunk_size
    }

    /// The chunk in the middle of the resident window.
    pub fn center(&self) -> (center: ChunkCoord)
        ensures
            center == self@.center,
    {
        self.center
    }

    /// The 27 chunks around `center`, the chunk at offset `(dx, dy, dz)` at
    /// place `(dx + 1) + 3 * (dy + 1) + 9 * (dz + 1)`.
    pub fn compute_window(&self, center: ChunkCoord) -> (chunks: [ChunkInfo; 27])
        ensures
            chunks@ == window(center, self@.chunk_size),
    {
        proof {
            use_type_invariant(self);
        }
        let origin = ChunkInfo { position: VoxelPosition { x: 0, y: 0, z: 0 }, texture_index: 0 };
        let mut chunks: [ChunkInfo; 27] = [origin; 27];
        let mut index: usize = 0;
        while index < 27
            invariant
                index <= 27,
                is_supported_size(self.chunk_size),
                forall|j: int|
                    0 <= j < index ==> #[trigger] chunks@[j] == window_entry(
                        center,
                        self.chunk_size,
                        j,
                    ),
            decreases 27 - index,
        {
            let dx: i64 = (index % 3) as i64 - 1;
            let dy: i64 = ((index / 3) % 3) as i64 - 1;
            let dz: i64 = (index / 9) as i64 - 1;
            chunks[index] = ChunkInfo {
                position: VoxelPosition {
                    x: origin_along(center.x, dx, self.chunk_size),
                    y: origin_along(center.y, dy, self.chunk_size),
                    z: origin_along(center.z, dz, self.chunk_size),
                },
                texture_index: index as u32,
            };
            index += 1;
        }
        assert(chunks@ =~= window(center, self.chunk_size));
        chunks
    }

    /// The resident window: the 27 chunks around the current centre.
    pub fn active_chunks(&self) -> (chunks: [ChunkInfo; 27])
        ensures
            chunks@ == window(self@.center, self@.chunk_size),
    {
        self.compute_window(self.center)
    }

    /// The chunk that holds a world position, if its coordinates fit in 32
    /// bits.
    pub fn chunk_of(&self, position: VoxelPosition) -> (chunk: Option<ChunkCoord>)
        ensures
            chunk == chunk_holding(position, self@.chunk_size),
    {
        proof {
            use_type_invariant(self);
        }
        let x: i64 = chunk_index(position.x, self.chunk_size);
        let y: i64 = chunk_index(position.y, self.chunk_size);
        let z: i64 = chunk_index(position.z, self.chunk_size);
        if x < i32::MIN as i64 || x > i32::MAX as i64 || y < i32::MIN as i64 || y > i32::MAX as i64
            || z < i32::MIN as i64 || z > i32::MAX as i64 {
            return None;
        }
        Some(ChunkCoord { x: x as i32, y: y as i32, z: z as i32 })
    }

    /// Moves the window to `center` and says whether the resident set has to
    /// change: it does exactly when the centre is another chunk than before.
    pub fn recenter(&mut self, center: ChunkCoord) -> (changed: bool)
        ensures
            changed == (center != old(self)@.center),
            final(self)@.center == center,
            final(self)@.chunk_size == old(self)@.chunk_size,
    {
        proof {
            use_type_invariant(&*self);
        }
        let changed: bool = center.x != self.center.x || center.y != self.center.y || center.z
            != self.center.z;
        self.center = center;
        changed
    }
}

/// A world coordinate lies within the chunk that holds it: at or above the
/// origin of the chunk, and below the origin of the next.
pub proof fn lemma_position_lies_in_its_chunk(position: i64, chunk_size: u32)
    requires
        is_supported_size(chunk_size),
    ensures
        chunk_along(position, chunk_size) * chunk_size <= position < (chunk_along(
            position,
            chunk_size,
        ) + 1) * chunk_size,
{
    let p = position as int;
    let s = chunk_size as int;
    vstd::arithmetic::div_mod::lemma_fundamental_div_mod(p, s);
    vstd::arithmetic::div_mod::lemma_mod_bound(p, s);
    assert((p / s + 1) * s == (p / s) * s + s) by (nonlinear_arith);
    assert((p / s) * s == s * (p / s)) by (nonlinear_arith);
}

/// Each offset of the window has a place of its own, and the chunk at that
/// place lies at that offset from the centre and has the texture slot of that
/// place.
pub proof fn lemma_window_entry_of_offset(
    center: ChunkCoord,
    chunk_size: u32,
    dx: int,
    dy: int,
    dz: int,
)
    requires
        is_step(dx),
        is_step(dy),
        is_step(dz),
    ensures
        0 <= window_index(dx, dy, dz) < WINDOW_CHUNKS,
        offset_x(window_index(dx, dy, dz)) == dx,
        offset_y(window_index(dx, dy, dz)) == dy,
        offset_z(window_index(dx, dy, dz)) == dz,
        window(center, chunk_size)[window_index(dx, dy, dz)].texture_index == window_index(
            dx,
            dy,
            dz,
        ),
        window(center, chunk_size)[window_index(dx, dy, dz)].position == chunk_origin(
            center,
            chunk_size,
            dx,
            dy,
            dz,
        ),
{
}

/// Each texture slot holds the chunk of exactly one offset of the window.
pub proof fn lemma_offset_of_slot(slot: int)
    requires
        0 <= slot < WINDOW_CHUNKS,
    ensures
        is_step(offset_x(slot)),
        is_step(offset_y(slot)),
        is_step(offset_z(slot)),
        window_index(offset_x(slot), offset_y(slot), offset_z(slot)) == slot,
{
}

/// Two offsets of the window with the same place are the same offset.
pub proof fn lemma_window_index_injective(ax: int, ay: int, az: int, bx: int, by: int, bz: int)
    requires
        is_step(ax),
        is_step(ay),
        is_step(az),
        is_step(bx),
        is_step(by),
        is_step(bz),
        window_index(ax, ay, az) == window_index(bx, by, bz),
    ensures
        ax == bx,
        ay == by,
        az == bz,
{
}

/// The window is a bijection between the 27 offsets and the 27 texture
/// slots, whatever the centre: the texture slots of the window are the
/// numbers from 0 to 26, each once, and the chunk in slot `s` is the one at
/// the offset that belongs to `s`.
pub proof fn lemma_window_is_bijection(center: ChunkCoord, chunk_size: u32)
    ensures
        window(center, chunk_size).len() == WINDOW_CHUNKS,
        forall|i: int|
            0 <= i < WINDOW_CHUNKS ==> (#[trigger] window(center, chunk_size)[i]).texture_index
                == i,
        forall|i: int, j: int|
            0 <= i < WINDOW_CHUNKS && 0 <= j < WINDOW_CHUNKS && i != j ==> (#[trigger] window(
                center,
                chunk_size,
            )[i]).texture_index != (#[trigger] window(center, chunk_size)[j]).texture_index,
        forall|dx: int, dy: int, dz: int|
            is_step(dx) && is_step(dy) && is_step(dz) ==> 0 <= #[trigger] window_index(dx, dy, dz)
                < WINDOW_CHUNKS && window(center, chunk_size)[window_index(dx, dy, dz)]
                == window_entry(center, chunk_size, window_index(dx, dy, dz)) && offset_x(
                window_index(dx, dy, dz),
            ) == dx && offset_y(window_index(dx, dy, dz)) == dy && offset_z(
                window_index(dx, dy, dz),
            ) == dz,
        forall|s: int|
            0 <= s < WINDOW_CHUNKS ==> is_step(#[trigger] offset_x(s)) && is_step(offset_y(s))
                && is_step(offset_z(s)) && window_index(offset_x(s), offset_y(s), offset_z(s))
                == s,
{
}

} // verus!
