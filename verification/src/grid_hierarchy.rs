//! The sparse voxel grid hierarchy: a table of levels, the offset of each
//! level in a flat occupancy buffer, the raw material volume of one chunk,
//! and the colour palette.

use vstd::prelude::*;
use vstd::arithmetic::power2::pow2;
use crate::voxel_source::{
    ParseError, FILE_HEADER_LEN, CHUNK_HEADER_LEN, MAGIC, TAG_MAIN, children_end, children_start,
    chunks_fill, container_ok, read_palette, read_size, read_texture, read_u32, source_palette,
    source_size, source_texture, texture_len,
};

verus! {

/// Number of entries in the level and offset tables.
pub const LEVEL_COUNT: usize = 8;

/// Number of colours in a palette.
pub const PALETTE_SIZE: usize = 256;

/// Bytes of material data per voxel: the material index, then the flags.
pub const BYTES_PER_VOXEL: usize = 2;

/// Smallest supported edge length of a chunk volume.
pub const MIN_TEXTURE_SIZE: u32 = 8;

/// Largest supported edge length of a chunk volume.
pub const MAX_TEXTURE_SIZE: u32 = 512;

/// One colour of the palette, as red, green, blue and alpha.
#[derive(Clone, Copy, Debug, PartialEq, Eq, Structural)]
pub struct PalleteEntry {
    pub r: u8,
    pub g: u8,
    pub b: u8,
    pub a: u8,
}

/// The edge lengths that a chunk volume may have: the powers of two from
/// `MIN_TEXTURE_SIZE` to `MAX_TEXTURE_SIZE`.
pub open spec fn is_supported_size(size: u32) -> bool {
    size == 8 || size == 16 || size == 32 || size == 64 || size == 128 || size == 256 || size
        == 512
}

/// The base-2 logarithm of a supported size.
pub open spec fn size_log2(size: u32) -> nat {
    if size == 8 {
        3
    } else if size == 16 {
        4
    } else if size == 32 {
        5
    } else if size == 64 {
        6
    } else if size == 128 {
        7
    } else if size == 256 {
        8
    } else {
        9
    }
}

/// Entry `i` of the level table of a grid of the given size. A level holds
/// the base-2 logarithm of the extent, in voxels, that one of its cells
/// covers. Level 0 is the coarsest: its one cell covers the whole chunk. Each
/// further level halves the extent, down to cells of two voxels. An entry of
/// 0 marks a slot of the table that is not in use.
pub open spec fn level_entry(size: u32, i: int) -> u32 {
    if 0 <= i < size_log2(size) {
        (size_log2(size) - i) as u32
    } else {
        0
    }
}

/// Number of cells along one edge of a level whose cells cover `2^level`
/// voxels; none for an unused slot.
pub open spec fn level_edge(size: u32, level: u32) -> nat {
    if level == 0 {
        0
    } else {
        size as nat / pow2(level as nat)
    }
}

/// Bytes that a level takes in the occupancy buffer: one bit per cell,
/// rounded up to whole bytes.
pub open spec fn level_bytes(size: u32, level: u32) -> nat {
    let edge = level_edge(size, level);
    (edge * edge * edge + 7) / 8
}

/// Byte offset of level `i` in the occupancy buffer: the levels follow one
/// another without gaps, the coarsest first. At `i == levels.len()` this is
/// the length of the whole buffer.
pub open spec fn level_offset(size: u32, levels: Seq<u32>, i: nat) -> nat
    decreases i,
{
    if i == 0 {
        0
    } else {
        level_offset(size, levels, (i - 1) as nat) + level_bytes(size, levels[i - 1])
    }
}

/// Number of bytes of material data of a chunk volume.
pub open spec fn texture_bytes(size: u32) -> nat {
    (size as nat) * (size as nat) * (size as nat) * (BYTES_PER_VOXEL as nat)
}

/// What a grid hierarchy holds.
pub ghost struct GridHierarchyView {
    /// Per level, the base-2 logarithm of the extent of a cell, coarsest first.
    pub levels: Seq<u32>,
    /// Per level, its byte offset in `voxel_data`.
    pub offsets: Seq<u32>,
    /// Edge length of one chunk volume, in voxels.
    pub texture_size: u32,
    /// The flat occupancy buffer of all levels.
    pub voxel_data: Seq<u8>,
    /// The material volume: for each voxel its material index and its flags.
    pub texture_data: Seq<u8>,
    /// The colours that material indices select.
    pub palette: Seq<PalleteEntry>,
}

impl GridHierarchyView {
    /// Length in bytes of the occupancy buffer that the level table asks for.
    pub open spec fn buffer_size(self) -> nat {
        level_offset(self.texture_size, self.levels, LEVEL_COUNT as nat)
    }

    /// The tables agree with the size, and each buffer has the length that
    /// the tables imply.
    pub open spec fn wf(self) -> bool {
        &&& is_supported_size(self.texture_size)
        &&& self.levels.len() == LEVEL_COUNT
        &&& forall|i: int|
            0 <= i < LEVEL_COUNT ==> #[trigger] self.levels[i] == level_entry(self.texture_size, i)
        &&& self.offsets.len() == LEVEL_COUNT
        &&& forall|i: int|
            0 <= i < LEVEL_COUNT ==> #[trigger] self.offsets[i] == level_offset(
                self.texture_size,
                self.levels,
                i as nat,
            )
        &&& self.voxel_data.len() == self.buffer_size()
        &&& self.texture_data.len() == texture_bytes(self.texture_size)
        &&& self.palette.len() == PALETTE_SIZE
    }
}

/// The level table of a grid of the given size.
pub open spec fn grid_levels(size: u32) -> Seq<u32> {
    Seq::new(LEVEL_COUNT as nat, |i: int| level_entry(size, i))
}

/// The colour that every entry of a fresh palette holds.
pub open spec fn blank_colour() -> PalleteEntry {
    PalleteEntry { r: 0, g: 0, b: 0, a: 0 }
}

/// The grid of the given size in which no voxel is occupied.
pub open spec fn empty_grid(size: u32) -> GridHierarchyView {
    let levels = grid_levels(size);
    GridHierarchyView {
        levels,
        offsets: Seq::new(LEVEL_COUNT as nat, |i: int| level_offset(size, levels, i as nat) as u32),
        texture_size: size,
        voxel_data: Seq::new(level_offset(size, levels, LEVEL_COUNT as nat), |i: int| 0u8),
        texture_data: Seq::new(texture_bytes(size), |i: int| 0u8),
        palette: Seq::new(PALETTE_SIZE as nat, |i: int| blank_colour()),
    }
}

/// The grid of the given size with the given material volume and palette, and
/// with an occupancy buffer of zeros: occupancy is derived from the material
/// volume on the device.
pub open spec fn loaded_grid(size: u32, texture: Seq<u8>, palette: Seq<PalleteEntry>)
    -> GridHierarchyView {
    GridHierarchyView { texture_data: texture, palette, ..empty_grid(size) }
}

/// What a voxel source decodes to. A source is malformed if its container is
/// broken, if it lacks a `SIZE` chunk of three equal extents, if it lacks an
/// `XYZI` chunk of well-formed records inside the model, or if its `RGBA`
/// chunk has the wrong length. A well-formed cube of another edge length than
/// the supported ones is an unsupported size, whatever its voxels and palette.
pub open spec fn parse(data: Seq<u8>) -> Result<GridHierarchyView, ParseError> {
    if !container_ok(data) {
        Err(ParseError::Malformed)
    } else {
        let start = children_start(data);
        let end = children_end(data);
        match source_size(data, start, end) {
            Err(error) => Err(error),
            Ok(size) => match (
                source_texture(data, start, end, size),
                source_palette(data, start, end),
            ) {
                (Some(texture), Some(palette)) => Ok(loaded_grid(size, texture, palette)),
                _ => Err(ParseError::Malformed),
            },
        }
    }
}

/// A level of a supported size takes at most 2 MiB.
pub proof fn lemma_level_bytes_bound(size: u32, level: u32)
    requires
        is_supported_size(size),
    ensures
        level_bytes(size, level) <= 0x20_0000,
{
    if level != 0 {
        let p = pow2(level as nat);
        vstd::arithmetic::power2::lemma2_to64();
        vstd::arithmetic::power2::lemma_pow2_strictly_increases(0, level as nat);
        let edge = level_edge(size, level);
        assert(edge <= 256) by (nonlinear_arith)
            requires
                edge == size as nat / p,
                p >= 2,
                size <= 512,
        ;
        assert(edge * edge * edge <= 0x100_0000) by (nonlinear_arith)
            requires
                edge <= 256,
        ;
    }
}

/// The offsets of a supported size stay far below the range of `u32`.
pub proof fn lemma_level_offset_bound(size: u32, levels: Seq<u32>, i: nat)
    requires
        is_supported_size(size),
    ensures
        level_offset(size, levels, i) <= i * 0x20_0000,
    decreases i,
{
    if i > 0 {
        lemma_level_offset_bound(size, levels, (i - 1) as nat);
        lemma_level_bytes_bound(size, levels[i - 1]);
    }
}

/// A sparse multi-level voxel grid.
pub struct GridHierarchy {
    levels: [u32; 8],
    offsets: [u32; 8],
    texture_size: u32,
    voxel_data: Vec<u8>,
    texture_data: Vec<u8>,
    palette: [PalleteEntry; 256],
}

impl View for GridHierarchy {
    type V = GridHierarchyView;

    closed spec fn view(&self) -> GridHierarchyView {
        GridHierarchyView {
            levels: self.levels@,
            offsets: self.offsets@,
            texture_size: self.texture_size,
            voxel_data: self.voxel_data@,
            texture_data: self.texture_data@,
            palette: self.palette@,
        }
    }
}

/// Whether a chunk volume may have this edge length.
pub fn is_supported(size: u32) -> (supported: bool)
    ensures
        supported == is_supported_size(size),
{
    size == 8 || size == 16 || size == 32 || size == 64 || size == 128 || size == 256 || size
        == 512
}

/// The base-2 logarithm of a supported size.
fn log2_of_size(size: u32) -> (log: u32)
    requires
        is_supported_size(size),
    ensures
        log == size_log2(size),
{
    if size == 8 {
        3
    } else if size == 16 {
        4
    } else if size == 32 {
        5
    } else if size == 64 {
        6
    } else if size == 128 {
        7
    } else if size == 256 {
        8
    } else {
        9
    }
}

/// Bytes that a level takes in the occupancy buffer.
fn level_size(size: u32, level: u32) -> (bytes: u32)
    requires
        is_supported_size(size),
        level < 32,
    ensures
        bytes == level_bytes(size, level),
{
    if level == 0 {
        return 0;
    }
    let edge: u32 = size >> level;
    proof {
        vstd::bits::lemma_u32_shr_is_div(size, level);
        assert(edge <= 256) by (bit_vector)
            requires
                edge == size >> level,
                size <= 512,
                1 <= level < 32,
        ;
        assert(edge * edge <= 0x1_0000 && edge * edge * edge <= 0x100_0000) by (nonlinear_arith)
            requires
                edge <= 256,
        ;
    }
    (edge * edge * edge + 7) / 8
}

impl GridHierarchy {
    /// Every grid is well formed.
    #[verifier::type_invariant]
    spec fn well_formed(self) -> bool {
        self@.wf()
    }

    /// A grid of the given size in which no voxel is occupied: the level and
    /// offset tables of that size, buffers of zeros, and a blank palette.
    pub fn build_empty(size: u32) -> (grid: GridHierarchy)
        requires
            is_supported_size(size),
        ensures
            grid@ == empty_grid(size),
            grid@.wf(),
            grid@.buffer_size() == analytic_buffer_size(size),
    {
        let log: u32 = log2_of_size(size);
        let mut levels: [u32; 8] = [0u32; 8];
        let mut offsets: [u32; 8] = [0u32; 8];
        let mut total: u32 = 0;
        let mut i: usize = 0;
        while i < 8
            invariant
                i <= 8,
                is_supported_size(size),
                log == size_log2(size),
                forall|j: int| 0 <= j < i ==> #[trigger] levels@[j] == level_entry(size, j),
                forall|j: int|
                    0 <= j < i ==> #[trigger] offsets@[j] == level_offset(
                        size,
                        grid_levels(size),
                        j as nat,
                    ),
                total == level_offset(size, grid_levels(size), i as nat),
            decreases 8 - i,
        {
            let level: u32 = if (i as u32) < log {
                log - i as u32
            } else {
                0
            };
            proof {
                lemma_level_offset_bound(size, grid_levels(size), (i + 1) as nat);
                assert(grid_levels(size)[i as int] == level);
            }
            levels[i] = level;
            offsets[i] = total;
            total = total + level_size(size, level);
            i += 1;
        }
        let voxel_data: Vec<u8> = vec![0u8; total as usize];
        let texture_data: Vec<u8> = vec![0u8; texture_len(size)];
        let blank = PalleteEntry { r: 0, g: 0, b: 0, a: 0 };
        let palette: [PalleteEntry; 256] = [blank; 256];
        proof {
            let expected = empty_grid(size);
            assert(levels@ =~= expected.levels);
            assert(offsets@ =~= expected.offsets);
            assert(voxel_data@ =~= expected.voxel_data);
            assert(texture_data@ =~= expected.texture_data);
            assert(palette@ =~= expected.palette);
            lemma_empty_grid_wf(size);
            lemma_buffer_size_analytic(expected);
        }
        GridHierarchy { levels, offsets, texture_size: size, voxel_data, texture_data, palette }
    }

    /// Decodes a paletted voxel source into a grid, or says why it cannot be
    /// decoded.
    pub fn build_from_bytes(data: &[u8]) -> (result: Result<GridHierarchy, ParseError>)
        ensures
            match result {
                Ok(grid) => parse(data@) is Ok && parse(data@)->Ok_0 == grid@ && grid@.wf(),
                Err(error) => parse(data@) is Err && parse(data@)->Err_0 == error,
            },
    {
        let len: usize = data.len();
        if len < FILE_HEADER_LEN + CHUNK_HEADER_LEN {
            return Err(ParseError::Malformed);
        }
        if read_u32(data, 0) != MAGIC || read_u32(data, FILE_HEADER_LEN) != TAG_MAIN {
            return Err(ParseError::Malformed);
        }
        let content: u32 = read_u32(data, FILE_HEADER_LEN + 4);
        let children: u32 = read_u32(data, FILE_HEADER_LEN + 8);
        let rest: usize = len - FILE_HEADER_LEN - CHUNK_HEADER_LEN;
        if content as usize > rest || children as usize > rest - content as usize {
            return Err(ParseError::Malformed);
        }
        let start: usize = FILE_HEADER_LEN + CHUNK_HEADER_LEN + content as usize;
        let end: usize = start + children as usize;
        if !chunks_fill(data, start, end) {
            return Err(ParseError::Malformed);
        }
        let size: u32 = match read_size(data, start, end) {
            Ok(size) => size,
            Err(error) => {
                return Err(error);
            },
        };
        let texture_data: Vec<u8> = match read_texture(data, start, end, size) {
            Some(texture) => texture,
            None => {
                return Err(ParseError::Malformed);
            },
        };
        let palette: [PalleteEntry; 256] = match read_palette(data, start, end) {
            Some(palette) => palette,
            None => {
                return Err(ParseError::Malformed);
            },
        };
        let empty = GridHierarchy::build_empty(size);
        proof {
            lemma_empty_grid_wf(size);
        }
        Ok(
            GridHierarchy {
                levels: empty.levels,
                offsets: empty.offsets,
                texture_size: size,
                voxel_data: empty.voxel_data,
                texture_data,
                palette,
            },
        )
    }

    /// Edge length of one chunk volume, in voxels.
    pub fn texture_size(&self) -> (size: u32)
        ensures
            size == self@.texture_size,
            is_supported_size(size),
    {
        proof {
            use_type_invariant(self);
        }
        self.texture_size
    }

    /// The level table.
    pub fn levels(&self) -> (levels: [u32; 8])
        ensures
            levels@ == self@.levels,
    {
        self.levels
    }

    /// The offset table.
    pub fn offsets(&self) -> (offsets: [u32; 8])
        ensures
            offsets@ == self@.offsets,
    {
        self.offsets
    }

    /// The flat occupancy buffer.
    pub fn voxel_data(&self) -> (data: &Vec<u8>)
        ensures
            data@ == self@.voxel_data,
    {
        &self.voxel_data
    }

    /// The material volume.
    pub fn texture_data(&self) -> (data: &Vec<u8>)
        ensures
            data@ == self@.texture_data,
    {
        &self.texture_data
    }

    /// The colour palette.
    pub fn palette(&self) -> (palette: &[PalleteEntry; 256])
        ensures
            palette@ == self@.palette,
    {
        &self.palette
    }

    /// Length in bytes of the occupancy buffer.
    pub fn buffer_size(&self) -> (size: usize)
        ensures
            size == self@.buffer_size(),
            size == self@.voxel_data.len(),
            self@.wf(),
    {
        proof {
            use_type_invariant(self);
        }
        self.voxel_data.len()
    }
}

/// The empty grid of a supported size is well formed.
pub proof fn lemma_empty_grid_wf(size: u32)
    requires
        is_supported_size(size),
    ensures
        empty_grid(size).wf(),
{
    let grid = empty_grid(size);
    assert forall|i: int| 0 <= i < LEVEL_COUNT implies #[trigger] grid.offsets[i] == level_offset(
        size,
        grid.levels,
        i as nat,
    ) by {
        lemma_level_offset_bound(size, grid.levels, i as nat);
    }
}

/// 8 to the power `e`.
pub open spec fn pow8(e: nat) -> nat
    decreases e,
{
    if e == 0 {
        1
    } else {
        8 * pow8((e - 1) as nat)
    }
}

/// Number of levels in use in a grid of the given size.
pub open spec fn levels_in_use(size: u32) -> nat {
    if size_log2(size) < LEVEL_COUNT {
        size_log2(size)
    } else {
        LEVEL_COUNT as nat
    }
}

/// The length of the occupancy buffer of a grid, in closed form. Level `i`
/// has `8^i` cells of one bit each, so level 0 takes one byte and level
/// `i >= 1` takes `8^(i-1)` bytes: with `n` levels in use that is
/// `1 + (8^(n-1) - 1) / 7` bytes.
pub open spec fn analytic_buffer_size(size: u32) -> nat {
    (1 + (pow8((levels_in_use(size) - 1) as nat) - 1) / 7) as nat
}

/// Bytes of level `i` of a grid of the given size, in closed form.
pub open spec fn analytic_level_bytes(size: u32, i: nat) -> nat {
    if i >= levels_in_use(size) {
        0
    } else if i == 0 {
        1
    } else {
        pow8((i - 1) as nat)
    }
}

/// Level `i` of a grid has `2^i` cells along each edge, and so takes the
/// bytes that the closed form gives.
pub proof fn lemma_level_bytes_analytic(size: u32, i: nat)
    requires
        is_supported_size(size),
        i < LEVEL_COUNT,
    ensures
        level_bytes(size, level_entry(size, i as int)) == analytic_level_bytes(size, i),
        i < levels_in_use(size) ==> level_edge(size, level_entry(size, i as int)) == pow2(i),
{
    vstd::arithmetic::power2::lemma2_to64();
    reveal_with_fuel(pow8, 8);
    let level = level_entry(size, i as int);
    if i < levels_in_use(size) {
        let edge = level_edge(size, level);
        assert(pow2(level as nat) * pow2(i) == size) by {
            vstd::arithmetic::power2::lemma_pow2_adds(level as nat, i);
        }
        assert(edge == pow2(i)) by (nonlinear_arith)
            requires
                edge == size as nat / pow2(level as nat),
                pow2(level as nat) * pow2(i) == size,
                pow2(level as nat) > 0,
        ;
        if i == 0 {
            assert(edge * edge * edge == 1) by (nonlinear_arith)
                requires
                    edge == 1,
            ;
        } else if i == 1 {
            assert(edge * edge * edge == 8) by (nonlinear_arith)
                requires
                    edge == 2,
            ;
        } else if i == 2 {
            assert(edge * edge * edge == 64) by (nonlinear_arith)
                requires
                    edge == 4,
            ;
        } else if i == 3 {
            assert(edge * edge * edge == 512) by (nonlinear_arith)
                requires
                    edge == 8,
            ;
        } else if i == 4 {
            assert(edge * edge * edge == 4096) by (nonlinear_arith)
                requires
                    edge == 16,
            ;
        } else if i == 5 {
            assert(edge * edge * edge == 32768) by (nonlinear_arith)
                requires
                    edge == 32,
            ;
        } else if i == 6 {
            assert(edge * edge * edge == 262144) by (nonlinear_arith)
                requires
                    edge == 64,
            ;
        } else {
            assert(edge * edge * edge == 2097152) by (nonlinear_arith)
                requires
                    edge == 128,
            ;
        }
    }
}

/// In a well-formed grid each level starts where the one before it ends, so
/// the offsets never decrease; the first level starts at 0; and the extent of
/// a cell of level 0 is the edge length of the chunk volume.
pub proof fn lemma_offsets_follow_levels(grid: GridHierarchyView, i: int)
    requires
        grid.wf(),
        0 <= i < LEVEL_COUNT - 1,
    ensures
        grid.offsets[0] == 0,
        grid.offsets[i + 1] == grid.offsets[i] + level_bytes(grid.texture_size, grid.levels[i]),
        grid.offsets[i] <= grid.offsets[i + 1],
        grid.offsets[LEVEL_COUNT - 1] + level_bytes(
            grid.texture_size,
            grid.levels[LEVEL_COUNT - 1],
        ) == grid.voxel_data.len(),
        pow2(grid.levels[0] as nat) == grid.texture_size,
{
    vstd::arithmetic::power2::lemma2_to64();
    reveal_with_fuel(level_offset, 2);
    assert(grid.levels[0] == level_entry(grid.texture_size, 0));
    assert(grid.offsets[i + 1] == level_offset(grid.texture_size, grid.levels, (i + 1) as nat));
    assert(grid.offsets[i] == level_offset(grid.texture_size, grid.levels, i as nat));
}

/// The occupancy buffer of a well-formed grid has the length that the closed
/// form gives for its size.
pub proof fn lemma_buffer_size_analytic(grid: GridHierarchyView)
    requires
        grid.wf(),
    ensures
        grid.buffer_size() == analytic_buffer_size(grid.texture_size),
        grid.voxel_data.len() == analytic_buffer_size(grid.texture_size),
{
    let size = grid.texture_size;
    reveal_with_fuel(level_offset, 9);
    reveal_with_fuel(pow8, 9);
    lemma_level_bytes_analytic(size, 0);
    lemma_level_bytes_analytic(size, 1);
    lemma_level_bytes_analytic(size, 2);
    lemma_level_bytes_analytic(size, 3);
    lemma_level_bytes_analytic(size, 4);
    lemma_level_bytes_analytic(size, 5);
    lemma_level_bytes_analytic(size, 6);
    lemma_level_bytes_analytic(size, 7);
    assert(grid.levels[0] == level_entry(size, 0));
    assert(grid.levels[1] == level_entry(size, 1));
    assert(grid.levels[2] == level_entry(size, 2));
    assert(grid.levels[3] == level_entry(size, 3));
    assert(grid.levels[4] == level_entry(size, 4));
    assert(grid.levels[5] == level_entry(size, 5));
    assert(grid.levels[6] == level_entry(size, 6));
    assert(grid.levels[7] == level_entry(size, 7));
}

} // verus!
