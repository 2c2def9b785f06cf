use voxel_pipeline::device_bytes::{bytes_to_words, words_to_bytes, zeroed_buffer};
use voxel_pipeline::physics_record::{
    read_result, write_record, CollisionEffect, Int3, PhysicsRecord, PhysicsResult, Vec3Bits,
    RESULT_BYTES, RESULT_WORDS,
};
use voxel_pipeline::slot_table::{SlotId, MAX_RECORDS, MAX_TYPE_BUFFER_DATA, RECORD_WORDS};

fn bits(x: f32, y: f32, z: f32) -> Vec3Bits {
    Vec3Bits { x: x.to_bits(), y: y.to_bits(), z: z.to_bits() }
}

fn record() -> PhysicsRecord {
    PhysicsRecord {
        position: bits(1.0, 2.0, 3.0),
        velocity: bits(0.0, -9.81, 0.5),
        half_size: Int3 { x: 2, y: -4, z: i32::MIN },
        collision_effect: CollisionEffect::SetFlags { radius: 3.0f32.to_bits(), flags: 8 },
    }
}

#[test]
fn a_record_is_fourteen_words_in_order() {
    let words = record().encode();
    assert_eq!(words.len(), RECORD_WORDS);
    assert_eq!(
        words,
        [
            1.0f32.to_bits(),
            2.0f32.to_bits(),
            3.0f32.to_bits(),
            0.0f32.to_bits(),
            (-9.81f32).to_bits(),
            0.5f32.to_bits(),
            2,
            (-4i32) as u32,
            i32::MIN as u32,
            1,
            3.0f32.to_bits(),
            8,
            0,
            0,
        ]
    );
    assert_eq!(words[7], 0xffff_fffc);
    assert_eq!(words[8], 0x8000_0000);
    assert_eq!(words[10], 0x4040_0000);
}

#[test]
fn a_record_without_effect_has_tag_zero() {
    let plain = PhysicsRecord { collision_effect: CollisionEffect::NoEffect, ..record() };
    let words = plain.encode();
    assert_eq!(&words[9..], &[0, 0, 0, 0, 0]);
    assert_eq!(&words[..9], &record().encode()[..9]);
}

#[test]
fn a_record_is_written_at_its_slot() {
    let mut buffer: Vec<u32> = (0..50).collect();
    assert!(write_record(&mut buffer, SlotId { index: 2 }, &record()));
    assert_eq!(buffer.len(), 50);
    assert_eq!(&buffer[..28], &(0..28).collect::<Vec<u32>>()[..]);
    assert_eq!(&buffer[28..42], &record().encode()[..]);
    assert_eq!(&buffer[42..], &(42..50).collect::<Vec<u32>>()[..]);
    let before = buffer.clone();
    assert!(!write_record(&mut buffer, SlotId { index: 3 }, &record()));
    assert!(!write_record(&mut buffer, SlotId { index: usize::MAX }, &record()));
    assert_eq!(buffer, before);
}

#[test]
fn every_slot_lies_within_the_record_buffer() {
    assert!(RECORD_WORDS * MAX_RECORDS <= MAX_TYPE_BUFFER_DATA);
    let mut buffer = vec![0u32; MAX_TYPE_BUFFER_DATA];
    assert!(write_record(&mut buffer, SlotId { index: MAX_RECORDS - 1 }, &record()));
    assert_eq!(buffer[RECORD_WORDS * (MAX_RECORDS - 1)], 1.0f32.to_bits());
    assert!(!write_record(&mut buffer, SlotId { index: MAX_RECORDS }, &record()));
}

#[test]
fn words_become_their_memory_image() {
    let words = vec![0x0403_0201u32, 0xdead_beef, 0, u32::MAX, 1];
    let bytes = words_to_bytes(&words);
    let expected: Vec<u8> = words.iter().flat_map(|word| word.to_ne_bytes()).collect();
    assert_eq!(bytes, expected);
    assert_eq!(bytes.len(), 20);
    assert_eq!(bytes, bytemuck::cast_slice::<u32, u8>(&words).to_vec());
    assert!(words_to_bytes(&Vec::new()).is_empty());
}

#[test]
fn bytes_become_the_words_of_their_image() {
    let words = vec![0x0403_0201u32, 0xdead_beef, 0, u32::MAX, 7];
    let bytes: Vec<u8> = words.iter().flat_map(|word| word.to_ne_bytes()).collect();
    assert_eq!(bytes_to_words(&bytes), Some(words.clone()));
    assert_eq!(bytes_to_words(&words_to_bytes(&words)), Some(words));
    assert_eq!(bytes_to_words(&[]), Some(Vec::new()));
    assert_eq!(bytes_to_words(&[1, 2, 3]), None);
    assert_eq!(bytes_to_words(&[1, 2, 3, 4, 5]), None);
    let first = bytes_to_words(&[1, 0, 0, 0]).unwrap()[0];
    assert!(first == 1 || first == 0x0100_0000);
}

#[test]
fn a_fresh_buffer_is_all_zeros() {
    let bytes = zeroed_buffer(MAX_TYPE_BUFFER_DATA);
    assert_eq!(bytes.len(), 4_000_000);
    assert!(bytes.iter().all(|byte| *byte == 0));
    assert!(zeroed_buffer(0).is_empty());
    assert_eq!(zeroed_buffer(3), vec![0u8; 12]);
}

#[test]
fn a_result_is_six_words_per_slot() {
    assert_eq!(RESULT_BYTES, 4 * RESULT_WORDS);
    let words: Vec<u32> = (100..113).collect();
    assert_eq!(
        read_result(&words, 0),
        Some(PhysicsResult {
            hit_position: Vec3Bits { x: 100, y: 101, z: 102 },
            hit_normal: Vec3Bits { x: 103, y: 104, z: 105 },
        })
    );
    assert_eq!(
        read_result(&words, 1),
        Some(PhysicsResult {
            hit_position: Vec3Bits { x: 106, y: 107, z: 108 },
            hit_normal: Vec3Bits { x: 109, y: 110, z: 111 },
        })
    );
    assert_eq!(read_result(&words, 2), None);
    assert_eq!(read_result(&words, usize::MAX), None);
    assert_eq!(read_result(&Vec::new(), 0), None);
}

#[test]
fn a_zero_normal_is_no_hit() {
    let at = bits(4.0, 5.0, 6.0);
    let miss = PhysicsResult { hit_position: at, hit_normal: bits(0.0, 0.0, 0.0) };
    assert!(!miss.collided());
    assert!(miss.hit_normal.is_zero());
    let negative_zero = PhysicsResult { hit_position: at, hit_normal: bits(-0.0, 0.0, -0.0) };
    assert!(!negative_zero.collided());
    for normal in [
        bits(1.0, 0.0, 0.0),
        bits(0.0, -1.0, 0.0),
        bits(0.0, 0.0, 1.0),
        bits(0.0, 0.0, f32::MIN_POSITIVE),
        bits(f32::NAN, 0.0, 0.0),
    ] {
        let hit = PhysicsResult { hit_position: at, hit_normal: normal };
        assert!(hit.collided());
        assert!(!hit.hit_normal.is_zero());
    }
}
