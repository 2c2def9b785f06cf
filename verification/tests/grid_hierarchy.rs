use voxel_pipeline::grid_hierarchy::{is_supported, GridHierarchy, PalleteEntry};
use voxel_pipeline::voxel_source::ParseError;

fn chunk(tag: &[u8; 4], content: &[u8]) -> Vec<u8> {
    let mut bytes = Vec::new();
    bytes.extend_from_slice(tag);
    bytes.extend_from_slice(&(content.len() as u32).to_le_bytes());
    bytes.extend_from_slice(&0u32.to_le_bytes());
    bytes.extend_from_slice(content);
    bytes
}

fn source(children: &[Vec<u8>]) -> Vec<u8> {
    let body: Vec<u8> = children.iter().flatten().copied().collect();
    let mut bytes = Vec::new();
    bytes.extend_from_slice(b"VOX ");
    bytes.extend_from_slice(&150u32.to_le_bytes());
    bytes.extend_from_slice(b"MAIN");
    bytes.extend_from_slice(&0u32.to_le_bytes());
    bytes.extend_from_slice(&(body.len() as u32).to_le_bytes());
    bytes.extend_from_slice(&body);
    bytes
}

fn size_chunk(x: u32, y: u32, z: u32) -> Vec<u8> {
    let mut content = Vec::new();
    content.extend_from_slice(&x.to_le_bytes());
    content.extend_from_slice(&y.to_le_bytes());
    content.extend_from_slice(&z.to_le_bytes());
    chunk(b"SIZE", &content)
}

fn voxel_chunk(voxels: &[[u8; 4]]) -> Vec<u8> {
    let mut content = Vec::new();
    content.extend_from_slice(&(voxels.len() as u32).to_le_bytes());
    for voxel in voxels {
        content.extend_from_slice(voxel);
    }
    chunk(b"XYZI", &content)
}

fn palette_chunk() -> Vec<u8> {
    let mut content = Vec::new();
    for i in 0..256u32 {
        content.extend_from_slice(&[i as u8, (255 - i) as u8, (i / 2) as u8, 255]);
    }
    chunk(b"RGBA", &content)
}

fn error_of(bytes: &[u8]) -> ParseError {
    match GridHierarchy::build_from_bytes(bytes) {
        Ok(_) => panic!("the source was accepted"),
        Err(error) => error,
    }
}

#[test]
fn empty_grid_of_256_has_consistent_tables() {
    assert!(is_supported(256));
    let grid = GridHierarchy::build_empty(256);
    assert_eq!(grid.texture_size(), 256);
    assert_eq!(grid.levels(), [8, 7, 6, 5, 4, 3, 2, 1]);
    assert_eq!(grid.offsets(), [0, 1, 2, 10, 74, 586, 4682, 37450]);
    assert_eq!(grid.buffer_size(), 299_594);
    assert_eq!(grid.voxel_data().len(), 299_594);
    assert!(grid.voxel_data().iter().all(|byte| *byte == 0));
    assert_eq!(grid.texture_data().len(), 2 * 256 * 256 * 256);
}

#[test]
fn empty_grid_of_8_uses_three_levels() {
    let grid = GridHierarchy::build_empty(8);
    assert_eq!(grid.texture_size(), 8);
    assert_eq!(grid.levels(), [3, 2, 1, 0, 0, 0, 0, 0]);
    assert_eq!(grid.offsets(), [0, 1, 2, 10, 10, 10, 10, 10]);
    assert_eq!(grid.buffer_size(), 10);
    assert_eq!(grid.texture_data().len(), 1024);
    assert!(grid.texture_data().iter().all(|byte| *byte == 0));
    let blank = PalleteEntry { r: 0, g: 0, b: 0, a: 0 };
    assert!(grid.palette().iter().all(|colour| *colour == blank));
}

#[test]
fn level_zero_covers_the_whole_chunk() {
    for size in [8u32, 16, 32, 64, 128, 256] {
        let grid = GridHierarchy::build_empty(size);
        assert_eq!(1u32 << grid.levels()[0], grid.texture_size());
    }
}

#[test]
fn buffer_size_matches_the_closed_form_for_every_supported_size() {
    for size in [8u32, 16, 32, 64, 128, 256, 512] {
        let grid = GridHierarchy::build_empty(size);
        let log = size.trailing_zeros() as usize;
        let in_use = log.min(8);
        let expected = 1 + (8usize.pow(in_use as u32 - 1) - 1) / 7;
        assert_eq!(grid.buffer_size(), expected);
        assert_eq!(grid.voxel_data().len(), expected);
        assert_eq!(grid.texture_data().len(), 2 * (size as usize).pow(3));
    }
}

#[test]
fn offsets_follow_the_sizes_of_the_levels() {
    for size in [8u32, 16, 32, 64, 128, 256, 512] {
        let grid = GridHierarchy::build_empty(size);
        let levels = grid.levels();
        let offsets = grid.offsets();
        assert_eq!(offsets[0], 0);
        let mut end = 0u32;
        for i in 0..8 {
            assert_eq!(offsets[i], end);
            let edge = if levels[i] == 0 { 0 } else { size >> levels[i] };
            end += (edge * edge * edge + 7) / 8;
            if i > 0 {
                assert!(offsets[i] >= offsets[i - 1]);
            }
        }
        assert_eq!(end as usize, grid.buffer_size());
    }
}

#[test]
fn only_powers_of_two_from_8_to_512_are_supported() {
    for size in [8u32, 16, 32, 64, 128, 256, 512] {
        assert!(is_supported(size));
    }
    for size in [0u32, 1, 2, 4, 7, 9, 12, 24, 100, 255, 257, 1024, 2048, u32::MAX] {
        assert!(!is_supported(size));
    }
}

#[test]
fn a_source_decodes_to_its_voxels_and_palette() {
    let bytes = source(&[
        size_chunk(8, 8, 8),
        voxel_chunk(&[[1, 2, 3, 7], [0, 0, 0, 200], [7, 7, 7, 1]]),
        palette_chunk(),
    ]);
    let grid = GridHierarchy::build_from_bytes(&bytes).expect("a well-formed source");
    assert_eq!(grid.texture_size(), 8);
    assert_eq!(grid.levels(), [3, 2, 1, 0, 0, 0, 0, 0]);
    assert_eq!(grid.offsets(), [0, 1, 2, 10, 10, 10, 10, 10]);
    assert_eq!(grid.buffer_size(), 10);
    assert!(grid.voxel_data().iter().all(|byte| *byte == 0));
    let texture = grid.texture_data();
    assert_eq!(texture.len(), 1024);
    let slot = |x: usize, y: usize, z: usize| 2 * (x + 8 * (z + 8 * y));
    assert_eq!(slot(1, 2, 3), 2 * (1 + 8 * (3 + 8 * 2)));
    assert_eq!(texture[slot(1, 2, 3)], 7);
    assert_eq!(texture[slot(1, 2, 3) + 1], 16);
    assert_eq!(texture[slot(0, 0, 0)], 200);
    assert_eq!(texture[slot(0, 0, 0) + 1], 16);
    assert_eq!(texture[slot(7, 7, 7)], 1);
    assert_eq!(texture[slot(7, 7, 7) + 1], 16);
    assert_eq!(texture.iter().filter(|byte| **byte != 0).count(), 6);
    let palette = grid.palette();
    assert_eq!(palette[0], PalleteEntry { r: 0, g: 0, b: 0, a: 0 });
    assert_eq!(palette[1], PalleteEntry { r: 0, g: 255, b: 0, a: 255 });
    assert_eq!(palette[2], PalleteEntry { r: 1, g: 254, b: 0, a: 255 });
    assert_eq!(palette[255], PalleteEntry { r: 254, g: 1, b: 127, a: 255 });
}

#[test]
fn a_source_without_palette_keeps_the_blank_palette() {
    let bytes = source(&[size_chunk(16, 16, 16), voxel_chunk(&[[15, 0, 0, 3]])]);
    let grid = GridHierarchy::build_from_bytes(&bytes).expect("a well-formed source");
    assert_eq!(grid.texture_size(), 16);
    assert_eq!(grid.texture_data()[2 * 15], 3);
    let blank = PalleteEntry { r: 0, g: 0, b: 0, a: 0 };
    assert!(grid.palette().iter().all(|colour| *colour == blank));
}

#[test]
fn a_later_voxel_overwrites_an_earlier_one() {
    let bytes = source(&[size_chunk(8, 8, 8), voxel_chunk(&[[2, 2, 2, 5], [2, 2, 2, 9]])]);
    let grid = GridHierarchy::build_from_bytes(&bytes).expect("a well-formed source");
    assert_eq!(grid.texture_data()[2 * (2 + 8 * (2 + 8 * 2))], 9);
}

#[test]
fn chunks_of_other_kinds_are_passed_over() {
    let bytes = source(&[
        chunk(b"PACK", &1u32.to_le_bytes()),
        size_chunk(8, 8, 8),
        chunk(b"nTRN", &[1, 2, 3]),
        voxel_chunk(&[[4, 0, 0, 1]]),
    ]);
    let grid = GridHierarchy::build_from_bytes(&bytes).expect("a well-formed source");
    assert_eq!(grid.texture_data()[8], 1);
}

#[test]
fn the_first_chunk_of_each_kind_counts() {
    let bytes = source(&[
        size_chunk(8, 8, 8),
        size_chunk(16, 16, 16),
        voxel_chunk(&[[1, 0, 0, 1]]),
        voxel_chunk(&[[2, 0, 0, 2]]),
    ]);
    let grid = GridHierarchy::build_from_bytes(&bytes).expect("a well-formed source");
    assert_eq!(grid.texture_size(), 8);
    assert_eq!(grid.texture_data()[2], 1);
    assert_eq!(grid.texture_data()[4], 0);
}

#[test]
fn a_broken_container_is_malformed() {
    assert_eq!(error_of(&[]), ParseError::Malformed);
    assert_eq!(error_of(b"VOX "), ParseError::Malformed);
    let good = source(&[size_chunk(8, 8, 8), voxel_chunk(&[])]);
    assert!(GridHierarchy::build_from_bytes(&good).is_ok());
    let mut bad_magic = good.clone();
    bad_magic[3] = b'!';
    assert_eq!(error_of(&bad_magic), ParseError::Malformed);
    let mut bad_main = good.clone();
    bad_main[8] = b'm';
    assert_eq!(error_of(&bad_main), ParseError::Malformed);
    let truncated = &good[..good.len() - 1];
    assert_eq!(error_of(truncated), ParseError::Malformed);
    let mut overlong_child = good.clone();
    overlong_child[24] = 13;
    assert_eq!(error_of(&overlong_child), ParseError::Malformed);
}

#[test]
fn bytes_behind_the_main_chunk_are_ignored() {
    let mut bytes = source(&[size_chunk(8, 8, 8), voxel_chunk(&[[1, 1, 1, 1]])]);
    bytes.extend_from_slice(&[1, 2, 3]);
    assert!(GridHierarchy::build_from_bytes(&bytes).is_ok());
}

#[test]
fn a_source_without_size_or_voxels_is_malformed() {
    assert_eq!(error_of(&source(&[])), ParseError::Malformed);
    assert_eq!(error_of(&source(&[voxel_chunk(&[])])), ParseError::Malformed);
    assert_eq!(error_of(&source(&[size_chunk(8, 8, 8)])), ParseError::Malformed);
}

#[test]
fn a_model_that_is_no_cube_is_malformed() {
    let bytes = source(&[size_chunk(8, 8, 16), voxel_chunk(&[])]);
    assert_eq!(error_of(&bytes), ParseError::Malformed);
    let bytes = source(&[size_chunk(8, 16, 8), voxel_chunk(&[])]);
    assert_eq!(error_of(&bytes), ParseError::Malformed);
    let short_size = source(&[chunk(b"SIZE", &[8, 0, 0, 0, 8, 0, 0, 0]), voxel_chunk(&[])]);
    assert_eq!(error_of(&short_size), ParseError::Malformed);
}

#[test]
fn a_cube_of_another_size_is_unsupported() {
    for size in [0u32, 1, 4, 12, 100, 1024, 4096] {
        let bytes = source(&[size_chunk(size, size, size), voxel_chunk(&[])]);
        assert_eq!(error_of(&bytes), ParseError::UnsupportedSize);
    }
    let without_voxels = source(&[size_chunk(12, 12, 12)]);
    assert_eq!(error_of(&without_voxels), ParseError::UnsupportedSize);
}

#[test]
fn voxels_outside_the_model_are_malformed() {
    for voxel in [[8u8, 0, 0, 1], [0, 8, 0, 1], [0, 0, 8, 1], [255, 255, 255, 1]] {
        let bytes = source(&[size_chunk(8, 8, 8), voxel_chunk(&[[1, 1, 1, 1], voxel])]);
        assert_eq!(error_of(&bytes), ParseError::Malformed);
    }
}

#[test]
fn a_voxel_chunk_of_the_wrong_length_is_malformed() {
    let mut content = Vec::new();
    content.extend_from_slice(&2u32.to_le_bytes());
    content.extend_from_slice(&[1, 1, 1, 1]);
    let bytes = source(&[size_chunk(8, 8, 8), chunk(b"XYZI", &content)]);
    assert_eq!(error_of(&bytes), ParseError::Malformed);
    let bytes = source(&[size_chunk(8, 8, 8), chunk(b"XYZI", &[0, 0])]);
    assert_eq!(error_of(&bytes), ParseError::Malformed);
    let mut content = Vec::new();
    content.extend_from_slice(&0u32.to_le_bytes());
    content.extend_from_slice(&[1, 1]);
    let bytes = source(&[size_chunk(8, 8, 8), chunk(b"XYZI", &content)]);
    assert_eq!(error_of(&bytes), ParseError::Malformed);
}

#[test]
fn a_palette_of_the_wrong_length_is_malformed() {
    let bytes = source(&[
        size_chunk(8, 8, 8),
        voxel_chunk(&[]),
        chunk(b"RGBA", &[0; 1020]),
    ]);
    assert_eq!(error_of(&bytes), ParseError::Malformed);
}
