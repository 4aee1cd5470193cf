//! Playfield geometry: integer 2D vectors, the arena's static dimensions,
//! and the game's fixed size and speed constants.

use vstd::prelude::*;

verus! {

/// Thousandths of a length unit per unit: positions and sizes are stored in
/// thousandths so that a displacement (speed in units per second times
/// elapsed milliseconds) needs no division.
pub const MILLI: i64 = 1000;

/// Paddle travel speed, in units per second.
pub const PADDLE_SPEED: i64 = 500;

/// Ball scalar speed at the start of every rally, in units per second.
pub const BALL_BASE_SPEED: i64 = 100;

/// Amount added to the ball's scalar speed at each ramp period crossing.
pub const BALL_SPEED_INCREASE: i64 = 25;

/// Period of the repeating speed ramp, in milliseconds.
pub const SPEED_RAMP_PERIOD_MS: i64 = 10000;

/// Half the paddle width (full size 20 by 100 units), in thousandths.
pub const PADDLE_HALF_WIDTH: i64 = 10 * MILLI;

/// Half the paddle height, in thousandths.
pub const PADDLE_HALF_HEIGHT: i64 = 50 * MILLI;

/// Half the ball width (full size 20 by 20 units), in thousandths.
pub const BALL_HALF_WIDTH: i64 = 10 * MILLI;

/// Half the ball height, in thousandths.
pub const BALL_HALF_HEIGHT: i64 = 10 * MILLI;

/// Largest arena dimension the simulation accepts, in thousandths; keeping
/// every dimension at or below a quarter of `i64::MAX` lets every sum or
/// difference of two dimensions, and of a clamped position and a dimension,
/// fit in an `i64`.
pub const MAX_ARENA_DIM: i64 = 0x1fff_ffff_ffff_ffff;

/// A two-dimensional point or direction with integer coordinates, in
/// thousandths of a unit.
#[derive(Clone, Copy, PartialEq, Eq, Structural, Debug)]
pub struct Vec2 {
    pub x: i64,
    pub y: i64,
}

/// Mathematical value of a `Vec2`.
pub ghost struct V2 {
    pub x: int,
    pub y: int,
}

impl View for Vec2 {
    type V = V2;

    open spec fn view(&self) -> V2 {
        V2 { x: self.x as int, y: self.y as int }
    }
}

impl Vec2 {
    pub fn new(x: i64, y: i64) -> (r: Vec2)
        ensures
            r@ == (V2 { x: x as int, y: y as int }),
    {
        Vec2 { x, y }
    }
}

/// Static playfield geometry: the arena's half extents and the half sizes of
/// the two kinds of moving rectangle. Immutable after construction.
#[derive(Clone, Copy, PartialEq, Eq, Structural, Debug)]
pub struct Arena {
    pub half_width: i64,
    pub half_height: i64,
    pub paddle_half_width: i64,
    pub paddle_half_height: i64,
    pub ball_half_width: i64,
    pub ball_half_height: i64,
}

/// Mathematical value of an `Arena`.
pub ghost struct ArenaModel {
    pub half_width: int,
    pub half_height: int,
    pub paddle_half_width: int,
    pub paddle_half_height: int,
    pub ball_half_width: int,
    pub ball_half_height: int,
}

impl View for Arena {
    type V = ArenaModel;

    open spec fn view(&self) -> ArenaModel {
        ArenaModel {
            half_width: self.half_width as int,
            half_height: self.half_height as int,
            paddle_half_width: self.paddle_half_width as int,
            paddle_half_height: self.paddle_half_height as int,
            ball_half_width: self.ball_half_width as int,
            ball_half_height: self.ball_half_height as int,
        }
    }
}

impl ArenaModel {
    /// Every dimension is positive and small enough that the sums and
    /// differences the simulation computes from them fit in an `i64`.
    pub open spec fn wf(self) -> bool {
        &&& 0 < self.half_width <= MAX_ARENA_DIM
        &&& 0 < self.half_height <= MAX_ARENA_DIM
        &&& 0 < self.paddle_half_width <= MAX_ARENA_DIM
        &&& 0 < self.paddle_half_height <= MAX_ARENA_DIM
        &&& 0 < self.ball_half_width <= MAX_ARENA_DIM
        &&& 0 < self.ball_half_height <= MAX_ARENA_DIM
    }
}

impl Arena {
    /// The arena built from given half extents, as a mathematical record.
    pub open spec fn new_spec(half_width: int, half_height: int) -> ArenaModel {
        ArenaModel {
            half_width: half_width,
            half_height: half_height,
            paddle_half_width: PADDLE_HALF_WIDTH as int,
            paddle_half_height: PADDLE_HALF_HEIGHT as int,
            ball_half_width: BALL_HALF_WIDTH as int,
            ball_half_height: BALL_HALF_HEIGHT as int,
        }
    }

    /// Builds the arena from the playfield's half extents (the geometry feed
    /// supplies them once at startup), with the fixed paddle and ball sizes.
    pub fn new(half_width: i64, half_height: i64) -> (r: Arena)
        requires
            0 < half_width <= MAX_ARENA_DIM,
            0 < half_height <= MAX_ARENA_DIM,
        ensures
            r@ == Arena::new_spec(half_width as int, half_height as int),
            r@.wf(),
    {
        Arena {
            half_width,
            half_height,
            paddle_half_width: PADDLE_HALF_WIDTH,
            paddle_half_height: PADDLE_HALF_HEIGHT,
            ball_half_width: BALL_HALF_WIDTH,
            ball_half_height: BALL_HALF_HEIGHT,
        }
    }
}

} // verus!
