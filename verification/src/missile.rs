//! Missile record: a small straight-flying projectile with its own fixed
//! size, built from a spawn point and a direction of travel.

use vstd::prelude::*;
use crate::geometry::{Vec2, V2, MILLI};
use crate::physics::Velocity;

verus! {

/// Half the missile width (full size 20 by 5 units), in thousandths.
pub const MISSILE_HALF_WIDTH: i64 = 10 * MILLI;

/// Half the missile height (2.5 units), in thousandths.
pub const MISSILE_HALF_HEIGHT: i64 = 2500;

/// A missile: center position, half size, and straight-line velocity.
#[derive(Clone, Copy, PartialEq, Eq, Structural, Debug)]
pub struct Missile {
    pub position: Vec2,
    pub half_size: Vec2,
    pub velocity: Velocity,
}

/// Builds a missile at the spawn point, flying in the given direction, with
/// the fixed missile size.
pub fn create_missile(spawn_pos: Vec2, direction: Vec2) -> (m: Missile)
    ensures
        m.position@ == spawn_pos@,
        m.velocity@ == direction@,
        m.half_size@ == (V2 { x: MISSILE_HALF_WIDTH as int, y: MISSILE_HALF_HEIGHT as int }),
{
    Missile {
        position: spawn_pos,
        half_size: Vec2 { x: MISSILE_HALF_WIDTH, y: MISSILE_HALF_HEIGHT },
        velocity: Velocity(direction),
    }
}

} // verus!
