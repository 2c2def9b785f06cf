//! The container format of a paletted voxel source.
//!
//! A source starts with the magic bytes `VOX ` and a four-byte version, then
//! holds one `MAIN` chunk. A chunk is a four-byte tag, the length of its
//! content and the length of its children, both as little-endian 32-bit
//! numbers, then the content and the children. The children of `MAIN` are
//! chunks that follow one another and fill the children region exactly.
//! Among them, the first `SIZE` chunk gives the extent of the model, the first
//! `XYZI` chunk its voxels, and the first `RGBA` chunk, if there is one, its
//! palette.

use vstd::prelude::*;
use crate::scene::COLLISION_FLAG;
use crate::grid_hierarchy::{PalleteEntry, blank_colour, is_supported_size, texture_bytes, BYTES_PER_VOXEL, PALETTE_SIZE};

verus! {


/// Length of the magic bytes and the version.
pub const FILE_HEADER_LEN: usize = 8;

/// Length of a chunk's tag and its two lengths.
pub const CHUNK_HEADER_LEN: usize = 12;

/// The magic bytes `VOX `, read as a little-endian number.
pub const MAGIC: u32 = 0x2058_4f56;

/// The tag `MAIN`, read as a little-endian number.
pub const TAG_MAIN: u32 = 0x4e49_414d;

/// The tag `SIZE`, read as a little-endian number.
pub const TAG_SIZE: u32 = 0x455a_4953;

/// The tag `XYZI`, read as a little-endian number.
pub const TAG_XYZI: u32 = 0x495a_5958;

/// The tag `RGBA`, read as a little-endian number.
pub const TAG_RGBA: u32 = 0x4142_4752;

/// Content length of a `SIZE` chunk: three 32-bit extents.
pub const SIZE_CONTENT_LEN: u32 = 12;

/// Content length of an `RGBA` chunk: 256 colours of four bytes.
pub const RGBA_CONTENT_LEN: u32 = 1024;

/// The little-endian 32-bit number in the four bytes from `at`.
pub open spec fn le_u32_at(data: Seq<u8>, at: int) -> nat {
    (data[at] + 0x100 * data[at + 1] + 0x1_0000 * data[at + 2] + 0x100_0000 * data[at + 3]) as nat
}

/// Length of the content of the chunk at `at`.
pub open spec fn content_len(data: Seq<u8>, at: int) -> nat {
    le_u32_at(data, at + 4)
}

/// Where the content of the chunk at `at` starts.
pub open spec fn content_start(at: int) -> int {
    at + CHUNK_HEADER_LEN
}

/// Where the chunk at `at` ends: behind its content and its children.
pub open spec fn chunk_end(data: Seq<u8>, at: int) -> int {
    at + CHUNK_HEADER_LEN + le_u32_at(data, at + 4) + le_u32_at(data, at + 8)
}

/// The chunk at `at` lies within the region that ends at `end`.
pub open spec fn chunk_fits(data: Seq<u8>, at: int, end: int) -> bool {
    at + CHUNK_HEADER_LEN <= end && chunk_end(data, at) <= end
}

/// The chunks from `at` on follow one another and stop exactly at `end`.
pub open spec fn chunks_tile(data: Seq<u8>, at: int, end: int) -> bool
    decreases end - at,
{
    if at >= end {
        at == end
    } else {
        chunk_fits(data, at, end) && chunks_tile(data, chunk_end(data, at), end)
    }
}

/// Where the first chunk with the given tag starts, among the chunks from
/// `at` up to `end`.
pub open spec fn find_chunk(data: Seq<u8>, at: int, end: int, tag: u32) -> Option<int>
    decreases end - at,
{
    if at >= end || !chunk_fits(data, at, end) {
        None
    } else if le_u32_at(data, at) == tag {
        Some(at)
    } else {
        find_chunk(data, chunk_end(data, at), end, tag)
    }
}

/// Where the children of `MAIN` start.
pub open spec fn children_start(data: Seq<u8>) -> int {
    FILE_HEADER_LEN + CHUNK_HEADER_LEN + le_u32_at(data, FILE_HEADER_LEN as int + 4)
}

/// Where the children of `MAIN` end.
pub open spec fn children_end(data: Seq<u8>) -> int {
    children_start(data) + le_u32_at(data, FILE_HEADER_LEN as int + 8)
}

/// The source has the magic bytes and a `MAIN` chunk that lies within the
/// data, and the children of `MAIN` fill their region exactly.
pub open spec fn container_ok(data: Seq<u8>) -> bool {
    &&& data.len() >= FILE_HEADER_LEN + CHUNK_HEADER_LEN
    &&& le_u32_at(data, 0) == MAGIC
    &&& le_u32_at(data, FILE_HEADER_LEN as int) == TAG_MAIN
    &&& children_end(data) <= data.len()
    &&& chunks_tile(data, children_start(data), children_end(data))
}

/// Reads the little-endian 32-bit number at `at`.
pub(crate) fn read_u32(data: &[u8], at: usize) -> (value: u32)
    requires
        at + 4 <= data@.len(),
    ensures
        value == le_u32_at(data@, at as int),
{
    let b0: u32 = data[at] as u32;
    let b1: u32 = data[at + 1] as u32;
    let b2: u32 = data[at + 2] as u32;
    let b3: u32 = data[at + 3] as u32;
    b0 + 0x100 * b1 + 0x1_0000 * b2 + 0x100_0000 * b3
}

/// Where the chunk at `at` ends, if it lies within the region up to `end`.
pub(crate) fn chunk_span(data: &[u8], at: usize, end: usize) -> (span: Option<usize>)
    requires
        at <= end <= data@.len(),
    ensures
        span.is_some() == chunk_fits(data@, at as int, end as int),
        span matches Some(e) ==> e == chunk_end(data@, at as int) && at < e <= end,
{
    if end - at < CHUNK_HEADER_LEN {
        return None;
    }
    let content: u32 = read_u32(data, at + 4);
    let children: u32 = read_u32(data, at + 8);
    let rest: usize = end - at - CHUNK_HEADER_LEN;
    if content as usize > rest {
        return None;
    }
    let rest: usize = rest - content as usize;
    if children as usize > rest {
        return None;
    }
    Some(at + CHUNK_HEADER_LEN + content as usize + children as usize)
}

/// Whether the chunks from `start` on fill the region up to `end` exactly.
pub(crate) fn chunks_fill(data: &[u8], start: usize, end: usize) -> (ok: bool)
    requires
        start <= end <= data@.len(),
    ensures
        ok == chunks_tile(data@, start as int, end as int),
{
    let mut at: usize = start;
    while at < end
        invariant
            start <= at <= end <= data@.len(),
            chunks_tile(data@, start as int, end as int) == chunks_tile(
                data@,
                at as int,
                end as int,
            ),
        decreases end - at,
    {
        match chunk_span(data, at, end) {
            Some(next) => {
                at = next;
            },
            None => {
                return false;
            },
        }
    }
    true
}

/// Where the first chunk with the given tag starts, among the chunks from
/// `start` up to `end`.
pub(crate) fn find_first(data: &[u8], start: usize, end: usize, tag: u32) -> (found: Option<usize>)
    requires
        start <= end <= data@.len(),
    ensures
        match found {
            Some(at) => find_chunk(data@, start as int, end as int, tag) == Some(at as int)
                && start <= at && chunk_fits(data@, at as int, end as int),
            None => find_chunk(data@, start as int, end as int, tag).is_none(),
        },
{
    let mut at: usize = start;
    while at < end
        invariant
            start <= at <= end <= data@.len(),
            find_chunk(data@, start as int, end as int, tag) == find_chunk(
                data@,
                at as int,
                end as int,
                tag,
            ),
        decreases end - at,
    {
        match chunk_span(data, at, end) {
            Some(next) => {
                if read_u32(data, at) == tag {
                    return Some(at);
                }
                at = next;
            },
            None => {
                return None;
            },
        }
    }
    None
}

/// What went wrong with a voxel source.
#[derive(Clone, Copy, Debug, PartialEq, Eq, Structural)]
pub enum ParseError {
    /// The container is broken, a needed chunk is missing or has the wrong
    /// length, the model is not a cube, or a voxel lies outside it.
    Malformed,
    /// The model is a cube, but not of a supported edge length.
    UnsupportedSize,
}

/// The extent of the model along the axis `axis` (0, 1 or 2), from the `SIZE`
/// chunk at `at`.
pub open spec fn extent_at(data: Seq<u8>, at: int, axis: int) -> nat {
    le_u32_at(data, content_start(at) + 4 * axis)
}

/// The edge length of the model: that of the first `SIZE` chunk, which must
/// hold three equal extents of a supported size.
pub open spec fn source_size(data: Seq<u8>, start: int, end: int) -> Result<u32, ParseError> {
    match find_chunk(data, start, end, TAG_SIZE) {
        None => Err(ParseError::Malformed),
        Some(at) => if content_len(data, at) != SIZE_CONTENT_LEN || extent_at(data, at, 0)
            != extent_at(data, at, 1) || extent_at(data, at, 1) != extent_at(data, at, 2) {
            Err(ParseError::Malformed)
        } else if !is_supported_size(extent_at(data, at, 0) as u32) {
            Err(ParseError::UnsupportedSize)
        } else {
            Ok(extent_at(data, at, 0) as u32)
        },
    }
}

/// Where the material index of the voxel at `(x, y, z)` stands in the
/// material volume; its flags follow it. The source counts height along `z`,
/// the volume along `y`.
pub open spec fn voxel_slot(size: u32, x: u8, y: u8, z: u8) -> int {
    BYTES_PER_VOXEL * (x + size * (z + size * y))
}

/// Where voxel record `k` starts, the records starting at `first`: a record is
/// three coordinates and a material index, one byte each.
pub open spec fn record_at(first: int, k: int) -> int {
    first + 4 * k
}

/// Voxel record `k` lies inside a model of the given size.
pub open spec fn record_in_range(data: Seq<u8>, first: int, k: int, size: u32) -> bool {
    let at = record_at(first, k);
    data[at] < size && data[at + 1] < size && data[at + 2] < size
}

/// The first `count` voxel records lie inside a model of the given size.
pub open spec fn records_in_range(data: Seq<u8>, first: int, count: nat, size: u32) -> bool {
    forall|k: int| 0 <= k < count ==> #[trigger] record_in_range(data, first, k, size)
}

/// The material volume after the first `count` voxel records have been
/// written into it, one after the other: each sets the material index of its
/// voxel and marks the voxel as solid.
pub open spec fn place_voxels(texture: Seq<u8>, size: u32, data: Seq<u8>, first: int, count: nat)
    -> Seq<u8>
    decreases count,
{
    if count == 0 {
        texture
    } else {
        let before = place_voxels(texture, size, data, first, (count - 1) as nat);
        let at = record_at(first, count - 1);
        let slot = voxel_slot(size, data[at], data[at + 1], data[at + 2]);
        before.update(slot, data[at + 3]).update(slot + 1, COLLISION_FLAG)
    }
}

/// A material volume of the given size without any voxel.
pub open spec fn blank_texture(size: u32) -> Seq<u8> {
    Seq::new(texture_bytes(size), |i: int| 0u8)
}

/// The material volume of the model: the voxels of the first `XYZI` chunk,
/// whose content must be a count and that many records, all inside the model.
pub open spec fn source_texture(data: Seq<u8>, start: int, end: int, size: u32) -> Option<
    Seq<u8>,
> {
    match find_chunk(data, start, end, TAG_XYZI) {
        None => None,
        Some(at) => {
            let first = content_start(at) + 4;
            let count = le_u32_at(data, content_start(at));
            if content_len(data, at) == 4 + 4 * count && records_in_range(
                data,
                first,
                count,
                size,
            ) {
                Some(place_voxels(blank_texture(size), size, data, first, count))
            } else {
                None
            }
        },
    }
}

/// The palette without any colour.
pub open spec fn blank_palette() -> Seq<PalleteEntry> {
    Seq::new(PALETTE_SIZE as nat, |i: int| blank_colour())
}

/// The palette that the colours from `first` on give: material 0 is empty and
/// stays blank, material `i` takes colour `i - 1` of the source.
pub open spec fn palette_at(data: Seq<u8>, first: int) -> Seq<PalleteEntry> {
    Seq::new(
        PALETTE_SIZE as nat,
        |i: int|
            if i == 0 {
                blank_colour()
            } else {
                PalleteEntry {
                    r: data[first + 4 * (i - 1)],
                    g: data[first + 4 * (i - 1) + 1],
                    b: data[first + 4 * (i - 1) + 2],
                    a: data[first + 4 * (i - 1) + 3],
                }
            },
    )
}

/// The palette of the model: that of the first `RGBA` chunk, which must hold
/// 256 colours; without such a chunk, the blank palette.
pub open spec fn source_palette(data: Seq<u8>, start: int, end: int) -> Option<
    Seq<PalleteEntry>,
> {
    match find_chunk(data, start, end, TAG_RGBA) {
        None => Some(blank_palette()),
        Some(at) => if content_len(data, at) == RGBA_CONTENT_LEN {
            Some(palette_at(data, content_start(at)))
        } else {
            None
        },
    }
}

/// A voxel inside a model of a supported size has its two bytes inside the
/// material volume.
pub proof fn lemma_voxel_slot_bound(size: u32, x: u8, y: u8, z: u8)
    requires
        is_supported_size(size),
        x < size,
        y < size,
        z < size,
    ensures
        0 <= voxel_slot(size, x, y, z),
        voxel_slot(size, x, y, z) + 1 < texture_bytes(size),
        texture_bytes(size) <= 0x1000_0000,
{
    let n = size as int;
    let xi = x as int;
    let yi = y as int;
    let zi = z as int;
    assert(0 <= xi + n * (zi + n * yi) && xi + n * (zi + n * yi) + 1 <= n * n * n && n * n * n
        <= 0x800_0000) by (nonlinear_arith)
        requires
            0 <= xi < n,
            0 <= yi < n,
            0 <= zi < n,
            n <= 512,
    ;
    assert((size as nat) * (size as nat) * (size as nat) == n * n * n) by (nonlinear_arith)
        requires
            n == size as int,
    ;
}

/// Writing voxels that lie inside the model keeps the length of the material
/// volume.
pub proof fn lemma_place_voxels_len(
    texture: Seq<u8>,
    size: u32,
    data: Seq<u8>,
    first: int,
    count: nat,
)
    requires
        is_supported_size(size),
        texture.len() == texture_bytes(size),
        records_in_range(data, first, count, size),
    ensures
        place_voxels(texture, size, data, first, count).len() == texture.len(),
    decreases count,
{
    if count > 0 {
        lemma_place_voxels_len(texture, size, data, first, (count - 1) as nat);
        assert(record_in_range(data, first, count - 1, size));
        let at = record_at(first, count - 1);
        lemma_voxel_slot_bound(size, data[at], data[at + 1], data[at + 2]);
    }
}

/// Reads the edge length of the model.
pub(crate) fn read_size(data: &[u8], start: usize, end: usize) -> (size: Result<u32, ParseError>)
    requires
        start <= end <= data@.len(),
    ensures
        size == source_size(data@, start as int, end as int),
{
    let at: usize = match find_first(data, start, end, TAG_SIZE) {
        Some(at) => at,
        None => {
            return Err(ParseError::Malformed);
        },
    };
    if read_u32(data, at + 4) != SIZE_CONTENT_LEN {
        return Err(ParseError::Malformed);
    }
    let x: u32 = read_u32(data, at + 12);
    let y: u32 = read_u32(data, at + 16);
    let z: u32 = read_u32(data, at + 20);
    if x != y || y != z {
        return Err(ParseError::Malformed);
    }
    if !crate::grid_hierarchy::is_supported(x) {
        return Err(ParseError::UnsupportedSize);
    }
    Ok(x)
}

/// Number of bytes of material data of a chunk volume of a supported size.
pub(crate) fn texture_len(size: u32) -> (len: usize)
    requires
        is_supported_size(size),
    ensures
        len == texture_bytes(size),
{
    let n: usize = size as usize;
    proof {
        assert(n * n <= 0x4_0000 && n * n * n <= 0x800_0000) by (nonlinear_arith)
            requires
                n <= 512,
        ;
    }
    n * n * n * BYTES_PER_VOXEL
}

/// Where the material index of the voxel at `(x, y, z)` stands in the
/// material volume.
fn slot_of_voxel(size: u32, x: u8, y: u8, z: u8) -> (slot: usize)
    requires
        is_supported_size(size),
        x < size,
        y < size,
        z < size,
    ensures
        slot == voxel_slot(size, x, y, z),
        slot + 1 < texture_bytes(size),
{
    let n: usize = size as usize;
    proof {
        lemma_voxel_slot_bound(size, x, y, z);
        let yi = y as int;
        let zi = z as int;
        let ni = n as int;
        assert(0 <= ni * yi <= 512 * 512 && 0 <= ni * (zi + ni * yi) <= 512 * 512 * 512)
            by (nonlinear_arith)
            requires
                0 <= yi < ni,
                0 <= zi < ni,
                ni <= 512,
        ;
    }
    BYTES_PER_VOXEL * (x as usize + n * (z as usize + n * (y as usize)))
}

/// Reads the material volume of the model.
#[verifier::loop_isolation(false)]
pub(crate) fn read_texture(data: &[u8], start: usize, end: usize, size: u32) -> (texture: Option<
    Vec<u8>,
>)
    requires
        start <= end <= data@.len(),
        is_supported_size(size),
    ensures
        match texture {
            Some(volume) => source_texture(data@, start as int, end as int, size) == Some(
                volume@,
            ) && volume@.len() == texture_bytes(size),
            None => source_texture(data@, start as int, end as int, size).is_none(),
        },
{
    let at: usize = match find_first(data, start, end, TAG_XYZI) {
        Some(at) => at,
        None => {
            return None;
        },
    };
    let content: u32 = read_u32(data, at + 4);
    if content < 4 {
        return None;
    }
    let count: u32 = read_u32(data, at + 12);
    if (content - 4) % 4 != 0 || (content - 4) / 4 != count {
        return None;
    }
    let first: usize = at + 16;
    let records: usize = count as usize;
    let mut texture: Vec<u8> = vec![0u8; texture_len(size)];
    assert(texture@ =~= blank_texture(size));
    let mut k: usize = 0;
    while k < records
        invariant
            k <= records,
            records == count,
            first + 4 * records <= end,
            is_supported_size(size),
            texture@.len() == texture_bytes(size),
            records_in_range(data@, first as int, k as nat, size),
            texture@ == place_voxels(blank_texture(size), size, data@, first as int, k as nat),
        decreases records - k,
    {
        let record: usize = first + 4 * k;
        let x: u8 = data[record];
        let y: u8 = data[record + 1];
        let z: u8 = data[record + 2];
        let material: u8 = data[record + 3];
        if x as u32 >= size || y as u32 >= size || z as u32 >= size {
            proof {
                assert(!record_in_range(data@, first as int, k as int, size));
            }
            return None;
        }
        let slot: usize = slot_of_voxel(size, x, y, z);
        texture.set(slot, material);
        texture.set(slot + 1, COLLISION_FLAG);
        proof {
            assert(record_in_range(data@, first as int, k as int, size));
        }
        k += 1;
    }
    Some(texture)
}

/// Reads the palette of the model.
#[verifier::loop_isolation(false)]
pub(crate) fn read_palette(data: &[u8], start: usize, end: usize) -> (palette: Option<
    [PalleteEntry; 256],
>)
    requires
        start <= end <= data@.len(),
    ensures
        match palette {
            Some(colours) => source_palette(data@, start as int, end as int) == Some(colours@),
            None => source_palette(data@, start as int, end as int).is_none(),
        },
{
    let blank = PalleteEntry { r: 0, g: 0, b: 0, a: 0 };
    let mut palette: [PalleteEntry; 256] = [blank; 256];
    let at: usize = match find_first(data, start, end, TAG_RGBA) {
        Some(at) => at,
        None => {
            assert(palette@ =~= blank_palette());
            return Some(palette);
        },
    };
    if read_u32(data, at + 4) != RGBA_CONTENT_LEN {
        return None;
    }
    let first: usize = at + CHUNK_HEADER_LEN;
    let mut i: usize = 1;
    while i < 256
        invariant
            1 <= i <= 256,
            first + 1024 <= end,
            forall|j: int| 0 <= j < i ==> #[trigger] palette@[j] == palette_at(data@, first as int)[j],
        decreases 256 - i,
    {
        let colour: usize = first + 4 * (i - 1);
        palette[i] = PalleteEntry {
            r: data[colour],
            g: data[colour + 1],
            b: data[colour + 2],
            a: data[colour + 3],
        };
        i += 1;
    }
    assert(palette@ =~= palette_at(data@, first as int));
    Some(palette)
}

} // verus!
