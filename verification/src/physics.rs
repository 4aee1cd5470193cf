//! Generic linear motion: a velocity component and the integrator that
//! advances any position by it, independent of the ball's speed ramp.

use vstd::prelude::*;
use crate::geometry::{Vec2, V2};

verus! {

/// A straight-line velocity, in units per second.
#[derive(Clone, Copy, PartialEq, Eq, Structural, Debug)]
pub struct Velocity(pub Vec2);

impl View for Velocity {
    type V = V2;

    open spec fn view(&self) -> V2 {
        self.0@
    }
}

/// A position advanced by a velocity over `dt` milliseconds: each
/// coordinate, in thousandths of a unit, grows by the matching velocity
/// component times the elapsed time.
pub open spec fn moved_by(pos: V2, velocity: V2, dt: int) -> V2 {
    V2 { x: pos.x + velocity.x * dt, y: pos.y + velocity.y * dt }
}

/// The machine can integrate only when the products and sums fit in `i64`.
pub open spec fn move_fits(pos: V2, velocity: V2, dt: int) -> bool {
    &&& i64::MIN <= velocity.x * dt <= i64::MAX
    &&& i64::MIN <= pos.x + velocity.x * dt <= i64::MAX
    &&& i64::MIN <= velocity.y * dt <= i64::MAX
    &&& i64::MIN <= pos.y + velocity.y * dt <= i64::MAX
}

/// Advances a position by one frame of a velocity.
pub fn velocity_move(position: &mut Vec2, velocity: &Velocity, dt: i64)
    requires
        0 <= dt,
        move_fits(old(position)@, velocity@, dt as int),
    ensures
        final(position)@ == moved_by(old(position)@, velocity@, dt as int),
{
    position.x = position.x + velocity.0.x * dt;
    position.y = position.y + velocity.0.y * dt;
}

} // verus!
