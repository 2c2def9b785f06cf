//! The rules of the scene that touch the voxel world: how fire burns down,
//! what a bullet does when it hits, and what each shot consists of.

use vstd::prelude::*;
use crate::physics_record::{CollisionEffect, Int3, PhysicsResult, Vec3Bits, MAGNITUDE_MASK, is_zero_bits};

verus! {

/// The voxel takes part in the cellular automata.
pub const AUTOMATA_FLAG: u8 = 128;

/// The voxel is the surface of a portal.
pub const PORTAL_FLAG: u8 = 64;

/// The voxel belongs to an animated entity and is cleared every frame.
pub const ANIMATION_FLAG: u8 = 32;

/// The voxel is solid for collisions.
pub const COLLISION_FLAG: u8 = 16;

/// The voxel falls like sand.
pub const SAND_FLAG: u8 = 8;

/// The first material of the fire sequence.
pub const FIRE_FIRST: u8 = 9;

/// The last material of the fire sequence.
pub const FIRE_LAST: u8 = 13;

/// The material at which a fire particle has burnt out and is removed.
pub const FIRE_BURNT_OUT: u8 = 11;

/// A fire particle moves on to its next material in one frame out of this
/// many, on average.
pub const FIRE_ODDS: u32 = 51;

/// Number of fire particles that an exploding bullet leaves.
pub const EXPLOSION_PARTICLES: u32 = 100;

/// The bit pattern of the float 1.
pub const ONE_BITS: u32 = 0x3f80_0000;

/// The radius within which an exploding shot turns voxels to sand: the float
/// 3, by its bit pattern.
pub const SAND_RADIUS_BITS: u32 = 0x4040_0000;

/// A particle after one frame of burning.
#[derive(Clone, Copy, Debug, PartialEq, Eq, Structural)]
pub struct FireStep {
    /// The material of the particle.
    pub material: u8,
    /// Whether the particle is removed from the scene.
    pub despawn: bool,
}

/// Whether a material belongs to the fire sequence.
pub open spec fn is_fire(material: u8) -> bool {
    FIRE_FIRST <= material <= FIRE_LAST
}

/// A particle after one frame. A fire particle moves on to the next material
/// if `advance` says so, and is removed when it then has the burnt-out
/// material. Other particles stay as they are.
pub open spec fn fire_step(material: u8, advance: bool) -> FireStep {
    if is_fire(material) {
        let next = if advance {
            (material + 1) as u8
        } else {
            material
        };
        FireStep { material: next, despawn: next == FIRE_BURNT_OUT }
    } else {
        FireStep { material, despawn: false }
    }
}

/// One frame of burning, for a given answer to whether the particle moves on.
pub fn advance_fire(material: u8, advance: bool) -> (step: FireStep)
    ensures
        step == fire_step(material, advance),
{
    if material >= FIRE_FIRST && material <= FIRE_LAST {
        let next: u8 = if advance {
            material + 1
        } else {
            material
        };
        FireStep { material: next, despawn: next == FIRE_BURNT_OUT }
    } else {
        FireStep { material, despawn: false }
    }
}

/// Draws a number below `sides` with `rand::Rng::gen_range` on the generator
/// of this thread. The range `0..sides` is not empty, so the call does not
/// panic; of the number only its range is known.
#[verifier::external_body]
fn roll(sides: u32) -> (face: u32)
    requires
        sides > 0,
    ensures
        face < sides,
{
    rand::Rng::gen_range(&mut rand::thread_rng(), 0..sides)
}

/// One frame of burning: the particle moves on with odds of one in
/// `FIRE_ODDS`, by a draw of its own.
pub fn update_fire(material: u8) -> (step: FireStep)
    ensures
        step == fire_step(material, true) || step == fire_step(material, false),
        !is_fire(material) ==> step == (FireStep { material, despawn: false }),
{
    let face: u32 = roll(FIRE_ODDS);
    advance_fire(material, face == 0)
}

/// A bullet, by its kind: 0 explodes, 1 places the first portal, 2 the
/// second.
#[derive(Clone, Copy, Debug, PartialEq, Eq, Structural)]
pub struct Bullet {
    pub bullet_type: u32,
}

/// What becomes of a bullet in a frame.
#[derive(Clone, Copy, Debug, PartialEq, Eq, Structural)]
pub enum BulletOutcome {
    /// It has hit nothing and flies on.
    Flying,
    /// It is removed and the first portal moves to where it hit.
    FirstPortal,
    /// It is removed and the second portal moves to where it hit.
    SecondPortal,
    /// It is removed and leaves `EXPLOSION_PARTICLES` fire particles.
    Explosion,
    /// It is removed without a trace.
    Removed,
}

/// What becomes of a bullet of the given kind that has or has not hit.
pub open spec fn bullet_outcome(bullet_type: u32, hit: bool) -> BulletOutcome {
    if !hit {
        BulletOutcome::Flying
    } else if bullet_type == 1 {
        BulletOutcome::FirstPortal
    } else if bullet_type == 2 {
        BulletOutcome::SecondPortal
    } else if bullet_type == 0 {
        BulletOutcome::Explosion
    } else {
        BulletOutcome::Removed
    }
}

impl Bullet {
    /// What becomes of this bullet, given the physics result of its slot.
    pub fn on_result(&self, result: &PhysicsResult) -> (outcome: BulletOutcome)
        ensures
            outcome == bullet_outcome(self.bullet_type, result.is_hit()),
    {
        if !result.collided() {
            BulletOutcome::Flying
        } else if self.bullet_type == 1 {
            BulletOutcome::FirstPortal
        } else if self.bullet_type == 2 {
            BulletOutcome::SecondPortal
        } else if self.bullet_type == 0 {
            BulletOutcome::Explosion
        } else {
            BulletOutcome::Removed
        }
    }
}

/// An axis of the world.
#[derive(Clone, Copy, Debug, PartialEq, Eq, Structural)]
pub enum Axis {
    Y,
    Z,
}

/// Whether a normal points straight up or down: its `y` is 1 or -1 and the
/// rest is zero.
pub open spec fn is_vertical(normal: Vec3Bits) -> bool {
    is_zero_bits(normal.x) && (normal.y == ONE_BITS || normal.y == ONE_BITS + 0x8000_0000)
        && is_zero_bits(normal.z)
}

/// The axis that is "up" for a portal on a surface with the given normal:
/// `Y`, except on floors and ceilings, where it is `Z`.
pub fn portal_up(normal: &Vec3Bits) -> (up: Axis)
    ensures
        up == (if is_vertical(*normal) {
            Axis::Z
        } else {
            Axis::Y
        }),
{
    let x: u32 = normal.x;
    let y: u32 = normal.y;
    let z: u32 = normal.z;
    proof {
        assert((x & 0x7fff_ffff == 0) == (x == 0 || x == 0x8000_0000)) by (bit_vector);
        assert((z & 0x7fff_ffff == 0) == (z == 0 || z == 0x8000_0000)) by (bit_vector);
        assert((y & 0x7fff_ffff == 0x3f80_0000) == (y == 0x3f80_0000 || y == 0xbf80_0000))
            by (bit_vector);
    }
    if x & MAGNITUDE_MASK == 0 && y & MAGNITUDE_MASK == ONE_BITS && z & MAGNITUDE_MASK == 0 {
        Axis::Z
    } else {
        Axis::Y
    }
}

/// The keys that fire a shot.
#[derive(Clone, Copy, Debug, PartialEq, Eq, Structural)]
pub enum ShotKey {
    /// Fires the bullet of the first portal.
    FirstPortal,
    /// Fires the bullet of the second portal.
    SecondPortal,
    /// Fires an exploding bullet that turns what it hits to sand.
    Sand,
    /// Throws a box.
    Crate,
}

/// What a shot consists of.
#[derive(Clone, Copy, Debug, PartialEq, Eq, Structural)]
pub struct Shot {
    /// The bullet.
    pub bullet: Bullet,
    /// The material of its voxels.
    pub material: u8,
    /// The flags of its voxels.
    pub flags: u8,
    /// What its collision does to the world.
    pub collision_effect: CollisionEffect,
    /// Its speed when it leaves, in voxels per second.
    pub speed: u32,
    /// Half the extent of its box, if it is one; a single voxel otherwise.
    pub half_size: Option<Int3>,
}

/// The shot of a key.
pub open spec fn shot_of(key: ShotKey) -> Shot {
    match key {
        ShotKey::FirstPortal => Shot {
            bullet: Bullet { bullet_type: 1 },
            material: 120,
            flags: ANIMATION_FLAG,
            collision_effect: CollisionEffect::NoEffect,
            speed: 50,
            half_size: None,
        },
        ShotKey::SecondPortal => Shot {
            bullet: Bullet { bullet_type: 2 },
            material: 121,
            flags: ANIMATION_FLAG,
            collision_effect: CollisionEffect::NoEffect,
            speed: 50,
            half_size: None,
        },
        ShotKey::Sand => Shot {
            bullet: Bullet { bullet_type: 0 },
            material: 120,
            flags: ANIMATION_FLAG,
            collision_effect: CollisionEffect::SetFlags {
                radius: SAND_RADIUS_BITS,
                flags: SAND_FLAG as u32,
            },
            speed: 50,
            half_size: None,
        },
        ShotKey::Crate => Shot {
            bullet: Bullet { bullet_type: 0 },
            material: 14,
            flags: ANIMATION_FLAG,
            collision_effect: CollisionEffect::NoEffect,
            speed: 10,
            half_size: Some(Int3 { x: 3, y: 3, z: 3 }),
        },
    }
}

/// The shot that a key fires.
pub fn shoot(key: ShotKey) -> (shot: Shot)
    ensures
        shot == shot_of(key),
{
    match key {
        ShotKey::FirstPortal => Shot {
            bullet: Bullet { bullet_type: 1 },
            material: 120,
            flags: ANIMATION_FLAG,
            collision_effect: CollisionEffect::NoEffect,
            speed: 50,
            half_size: None,
        },
        ShotKey::SecondPortal => Shot {
            bullet: Bullet { bullet_type: 2 },
            material: 121,
            flags: ANIMATION_FLAG,
            collision_effect: CollisionEffect::NoEffect,
            speed: 50,
            half_size: None,
        },
        ShotKey::Sand => Shot {
            bullet: Bullet { bullet_type: 0 },
            material: 120,
            flags: ANIMATION_FLAG,
            collision_effect: CollisionEffect::SetFlags {
                radius: SAND_RADIUS_BITS,
                flags: SAND_FLAG as u32,
            },
            speed: 50,
            half_size: None,
        },
        ShotKey::Crate => Shot {
            bullet: Bullet { bullet_type: 0 },
            material: 14,
            flags: ANIMATION_FLAG,
            collision_effect: CollisionEffect::NoEffect,
            speed: 10,
            half_size: Some(Int3 { x: 3, y: 3, z: 3 }),
        },
    }
}

} // verus!
