//! The records that the physics stage reads and writes, as words of a device
//! buffer. Floating-point values travel as their 32-bit patterns.

use vstd::prelude::*;
use crate::slot_table::{SlotId, RECORD_WORDS};

verus! {

/// Number of 32-bit words in one physics result.
pub const RESULT_WORDS: usize = 6;

/// Byte stride of one physics result.
pub const RESULT_BYTES: usize = 4 * RESULT_WORDS;

/// The tag of a record without a collision effect.
pub const EFFECT_TAG_NONE: u32 = 0;

/// The tag of a record whose collision sets voxel flags.
pub const EFFECT_TAG_SET_FLAGS: u32 = 1;

/// The bits of a 32-bit float that are not its sign.
pub const MAGNITUDE_MASK: u32 = 0x7fff_ffff;

/// Three 32-bit floats, each by its bit pattern.
#[derive(Clone, Copy, Debug, PartialEq, Eq, Structural)]
pub struct Vec3Bits {
    pub x: u32,
    pub y: u32,
    pub z: u32,
}

/// Three signed integers.
#[derive(Clone, Copy, Debug, PartialEq, Eq, Structural)]
pub struct Int3 {
    pub x: i32,
    pub y: i32,
    pub z: i32,
}

/// What a collision does to the voxels around the point that was hit.
#[derive(Clone, Copy, Debug, PartialEq, Eq, Structural)]
pub enum CollisionEffect {
    /// Nothing.
    NoEffect,
    /// The voxels within `radius` of the hit point receive `flags`. The
    /// radius is a float, by its bit pattern.
    SetFlags { radius: u32, flags: u32 },
}

/// The physics state of one entity.
#[derive(Clone, Copy, Debug, PartialEq, Eq, Structural)]
pub struct PhysicsRecord {
    pub position: Vec3Bits,
    pub velocity: Vec3Bits,
    pub half_size: Int3,
    pub collision_effect: CollisionEffect,
}

/// What the physics stage found for one slot. A zero normal means that
/// nothing was hit.
#[derive(Clone, Copy, Debug, PartialEq, Eq, Structural)]
pub struct PhysicsResult {
    pub hit_position: Vec3Bits,
    pub hit_normal: Vec3Bits,
}

/// The word that holds a signed integer: its two's complement.
pub open spec fn word_of_i32(v: i32) -> u32 {
    if v >= 0 {
        v as u32
    } else {
        (v + 0x1_0000_0000) as u32
    }
}

/// The tag word of a collision effect.
pub open spec fn effect_tag(effect: CollisionEffect) -> u32 {
    match effect {
        CollisionEffect::NoEffect => EFFECT_TAG_NONE,
        CollisionEffect::SetFlags { .. } => EFFECT_TAG_SET_FLAGS,
    }
}

/// The four parameter words of a collision effect: the radius and the flags,
/// then zeros.
pub open spec fn effect_params(effect: CollisionEffect) -> Seq<u32> {
    match effect {
        CollisionEffect::NoEffect => seq![0u32, 0u32, 0u32, 0u32],
        CollisionEffect::SetFlags { radius, flags } => seq![radius, flags, 0u32, 0u32],
    }
}

/// The words of a record: position, velocity, half size, the tag of the
/// collision effect, and its parameters.
pub open spec fn record_words(record: PhysicsRecord) -> Seq<u32> {
    seq![
        record.position.x,
        record.position.y,
        record.position.z,
        record.velocity.x,
        record.velocity.y,
        record.velocity.z,
        word_of_i32(record.half_size.x),
        word_of_i32(record.half_size.y),
        word_of_i32(record.half_size.z),
        effect_tag(record.collision_effect),
    ] + effect_params(record.collision_effect)
}

/// Whether the record of `slot` lies within a buffer of `len` words.
pub open spec fn record_fits(len: nat, slot: SlotId) -> bool {
    RECORD_WORDS * (slot.index + 1) <= len
}

/// The buffer after the record of `slot` has been overwritten.
pub open spec fn with_record(buffer: Seq<u32>, slot: SlotId, record: PhysicsRecord) -> Seq<u32> {
    buffer.subrange(0, RECORD_WORDS * slot.index) + record_words(record) + buffer.subrange(
        RECORD_WORDS * (slot.index + 1),
        buffer.len() as int,
    )
}

/// Whether the result of `slot` lies within a buffer of `len` words.
pub open spec fn result_fits(len: nat, slot: int) -> bool {
    0 <= slot && RESULT_WORDS * (slot + 1) <= len
}

/// The result that the buffer holds for `slot`.
pub open spec fn result_at(words: Seq<u32>, slot: int) -> PhysicsResult {
    let at = RESULT_WORDS * slot;
    PhysicsResult {
        hit_position: Vec3Bits { x: words[at], y: words[at + 1], z: words[at + 2] },
        hit_normal: Vec3Bits { x: words[at + 3], y: words[at + 4], z: words[at + 5] },
    }
}

/// Whether a bit pattern is that of a zero, positive or negative.
pub open spec fn is_zero_bits(bits: u32) -> bool {
    bits == 0 || bits == 0x8000_0000
}

/// The two's complement of a signed integer.
fn i32_word(v: i32) -> (word: u32)
    ensures
        word == word_of_i32(v),
{
    if v >= 0 {
        v as u32
    } else {
        ((v + i32::MAX) + 1) as u32 + 0x8000_0000
    }
}

impl Vec3Bits {
    /// Three positive zeros.
    pub open spec fn zero() -> Vec3Bits {
        Vec3Bits { x: 0, y: 0, z: 0 }
    }

    /// Whether all three floats are zero.
    pub open spec fn is_zero_vector(self) -> bool {
        is_zero_bits(self.x) && is_zero_bits(self.y) && is_zero_bits(self.z)
    }

    /// Whether all three floats are zero, of either sign.
    pub fn is_zero(&self) -> (zero: bool)
        ensures
            zero == self.is_zero_vector(),
    {
        let x: u32 = self.x;
        let y: u32 = self.y;
        let z: u32 = self.z;
        proof {
            assert((x & 0x7fff_ffff == 0) == (x == 0 || x == 0x8000_0000)) by (bit_vector);
            assert((y & 0x7fff_ffff == 0) == (y == 0 || y == 0x8000_0000)) by (bit_vector);
            assert((z & 0x7fff_ffff == 0) == (z == 0 || z == 0x8000_0000)) by (bit_vector);
        }
        x & MAGNITUDE_MASK == 0 && y & MAGNITUDE_MASK == 0 && z & MAGNITUDE_MASK == 0
    }
}

impl PhysicsResult {
    /// Whether something was hit: the normal is not the zero vector.
    pub open spec fn is_hit(self) -> bool {
        !self.hit_normal.is_zero_vector()
    }

    /// Whether something was hit.
    pub fn collided(&self) -> (hit: bool)
        ensures
            hit == self.is_hit(),
    {
        !self.hit_normal.is_zero()
    }
}

impl PhysicsRecord {
    /// The words of this record, in the order in which the device reads them.
    pub fn encode(&self) -> (words: [u32; 14])
        ensures
            words@ == record_words(*self),
    {
        let mut words: [u32; 14] = [0u32; 14];
        words[0] = self.position.x;
        words[1] = self.position.y;
        words[2] = self.position.z;
        words[3] = self.velocity.x;
        words[4] = self.velocity.y;
        words[5] = self.velocity.z;
        words[6] = i32_word(self.half_size.x);
        words[7] = i32_word(self.half_size.y);
        words[8] = i32_word(self.half_size.z);
        match self.collision_effect {
            CollisionEffect::NoEffect => {
                words[9] = EFFECT_TAG_NONE;
            },
            CollisionEffect::SetFlags { radius, flags } => {
                words[9] = EFFECT_TAG_SET_FLAGS;
                words[10] = radius;
                words[11] = flags;
            },
        }
        assert(words@ =~= record_words(*self));
        words
    }
}

/// Writes the record of `slot` into the record buffer. A slot whose record
/// does not lie within the buffer is not written.
pub fn write_record(buffer: &mut Vec<u32>, slot: SlotId, record: &PhysicsRecord) -> (written: bool)
    ensures
        written == record_fits(old(buffer)@.len(), slot),
        written ==> final(buffer)@ == with_record(old(buffer)@, slot, *record),
        !written ==> final(buffer)@ == old(buffer)@,
{
    let len: usize = buffer.len();
    if slot.index >= len / RECORD_WORDS {
        return false;
    }
    let first: usize = RECORD_WORDS * slot.index;
    let words: [u32; 14] = record.encode();
    let mut i: usize = 0;
    while i < RECORD_WORDS
        invariant
            i <= RECORD_WORDS,
            first == RECORD_WORDS * slot.index,
            first + RECORD_WORDS <= len,
            buffer@.len() == len,
            len == old(buffer)@.len(),
            words@ == record_words(*record),
            forall|j: int| 0 <= j < i ==> #[trigger] buffer@[first + j] == words@[j],
            forall|j: int|
                0 <= j < len && !(first <= j < first + RECORD_WORDS) ==> #[trigger] buffer@[j] == old(
                    buffer,
                )@[j],
        decreases RECORD_WORDS - i,
    {
        buffer.set(first + i, words[i]);
        i += 1;
    }
    proof {
        let expected = with_record(old(buffer)@, slot, *record);
        assert(effect_params(record.collision_effect).len() == 4);
        assert(record_words(*record).len() == RECORD_WORDS);
        assert(expected.len() == len);
        assert forall|j: int| 0 <= j < len implies buffer@[j] == expected[j] by {
            if first <= j < first + RECORD_WORDS {
                assert(buffer@[first + (j - first)] == words@[j - first]);
            }
        }
        assert(buffer@ =~= expected);
    }
    true
}

/// Reads the result of `slot` from the result buffer, if it lies within it.
pub fn read_result(words: &Vec<u32>, slot: usize) -> (result: Option<PhysicsResult>)
    ensures
        result == (if result_fits(words@.len(), slot as int) {
            Some(result_at(words@, slot as int))
        } else {
            None
        }),
{
    if slot >= words.len() / RESULT_WORDS {
        return None;
    }
    let at: usize = RESULT_WORDS * slot;
    Some(
        PhysicsResult {
            hit_position: Vec3Bits { x: words[at], y: words[at + 1], z: words[at + 2] },
            hit_normal: Vec3Bits { x: words[at + 3], y: words[at + 4], z: words[at + 5] },
        },
    )
}

} // verus!
