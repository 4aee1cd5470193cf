//! Plain data records for the simulation's fixed set of entities: the two
//! paddles, the ball, and the whole game state, together with their
//! mathematical models and the records' initial values.

use vstd::prelude::*;
use crate::geometry::{Arena, ArenaModel, Vec2, V2, BALL_BASE_SPEED};

verus! {

/// Which pair of keys drives a paddle.
#[derive(Clone, Copy, PartialEq, Eq, Structural, Debug)]
pub enum InputBinding {
    /// Up and Down arrows.
    Arrows,
    /// W and S.
    Wasd,
}

/// Snapshot of the four relevant keys for one frame: `true` means the key is
/// currently held.
#[derive(Clone, Copy, PartialEq, Eq, Structural, Debug)]
pub struct Keys {
    pub up: bool,
    pub down: bool,
    pub w: bool,
    pub s: bool,
}

/// One player's paddle: identity, center position, key binding, and score.
#[derive(Clone, Copy, PartialEq, Eq, Structural, Debug)]
pub struct Paddle {
    pub id: i8,
    pub position: Vec2,
    pub binding: InputBinding,
    pub score: i32,
}

/// Mathematical value of a `Paddle`.
pub ghost struct PaddleModel {
    pub id: int,
    pub position: V2,
    pub binding: InputBinding,
    pub score: int,
}

impl View for Paddle {
    type V = PaddleModel;

    open spec fn view(&self) -> PaddleModel {
        PaddleModel {
            id: self.id as int,
            position: self.position@,
            binding: self.binding,
            score: self.score as int,
        }
    }
}

impl PaddleModel {
    /// A paddle is one of the two players and its score never goes negative.
    pub open spec fn wf(self) -> bool {
        &&& self.id == 1 || self.id == 2
        &&& 0 <= self.score
    }
}

/// The ball: center position, direction of travel, scalar speed (units per
/// second), and the time accumulated toward the next speed-ramp period, in
/// milliseconds.
///
/// The direction is not forced to unit length: its components compound with
/// `speed`, so a diagonal direction moves the ball faster than a straight
/// one — deliberate, documented behavior rather than an oversight to fix.
#[derive(Clone, Copy, PartialEq, Eq, Structural, Debug)]
pub struct Ball {
    pub position: Vec2,
    pub velocity: Vec2,
    pub speed: i64,
    pub ramp_elapsed: i64,
}

/// Mathematical value of a `Ball`.
pub ghost struct BallModel {
    pub position: V2,
    pub velocity: V2,
    pub speed: int,
    pub ramp_elapsed: int,
}

impl View for Ball {
    type V = BallModel;

    open spec fn view(&self) -> BallModel {
        BallModel {
            position: self.position@,
            velocity: self.velocity@,
            speed: self.speed as int,
            ramp_elapsed: self.ramp_elapsed as int,
        }
    }
}

impl BallModel {
    /// The scalar speed stays positive and the ramp accumulator stays inside
    /// one period.
    pub open spec fn wf(self) -> bool {
        &&& 0 < self.speed
        &&& 0 <= self.ramp_elapsed < crate::geometry::SPEED_RAMP_PERIOD_MS
    }
}

/// The whole mutable simulation state: fixed cardinality, two paddles and
/// one ball inside one arena.
#[derive(Clone, Copy, PartialEq, Eq, Structural, Debug)]
pub struct GameState {
    pub arena: Arena,
    pub paddle1: Paddle,
    pub paddle2: Paddle,
    pub ball: Ball,
}

/// Mathematical value of a `GameState`.
pub ghost struct StateModel {
    pub arena: ArenaModel,
    pub paddle1: PaddleModel,
    pub paddle2: PaddleModel,
    pub ball: BallModel,
}

impl View for GameState {
    type V = StateModel;

    open spec fn view(&self) -> StateModel {
        StateModel {
            arena: self.arena@,
            paddle1: self.paddle1@,
            paddle2: self.paddle2@,
            ball: self.ball@,
        }
    }
}

impl GameState {
    /// Derived scoreboard view: the score belonging to a paddle id, `None`
    /// for an id that is not one of the two players.
    pub fn score_of(&self, id: i8) -> (r: Option<i32>)
        ensures
            id == 1 ==> r == Some(self.paddle1.score),
            id == 2 ==> r == Some(self.paddle2.score),
            id != 1 && id != 2 ==> r is None,
    {
        if id == 1 {
            Some(self.paddle1.score)
        } else if id == 2 {
            Some(self.paddle2.score)
        } else {
            None
        }
    }
}

impl StateModel {
    pub open spec fn wf(self) -> bool {
        &&& self.arena.wf()
        &&& self.paddle1.wf()
        &&& self.paddle2.wf()
        &&& self.ball.wf()
        &&& self.paddle1.id == 1
        &&& self.paddle2.id == 2
    }
}

/// Builds the two paddles at simulation start: player 1 on the left edge
/// with the W/S binding, player 2 on the right edge with the arrow binding,
/// both vertically centered with score zero.
pub fn initial_paddles(arena: &Arena) -> (r: (Paddle, Paddle))
    requires
        arena@.wf(),
    ensures
        r.0@ == (PaddleModel {
            id: 1,
            position: V2 { x: -arena@.half_width + arena@.paddle_half_width, y: 0 },
            binding: InputBinding::Wasd,
            score: 0,
        }),
        r.1@ == (PaddleModel {
            id: 2,
            position: V2 { x: arena@.half_width - arena@.paddle_half_width, y: 0 },
            binding: InputBinding::Arrows,
            score: 0,
        }),
        r.0@.wf(),
        r.1@.wf(),
{
    let p1 = Paddle {
        id: 1,
        position: Vec2 { x: -arena.half_width + arena.paddle_half_width, y: 0 },
        binding: InputBinding::Wasd,
        score: 0,
    };
    let p2 = Paddle {
        id: 2,
        position: Vec2 { x: arena.half_width - arena.paddle_half_width, y: 0 },
        binding: InputBinding::Arrows,
        score: 0,
    };
    (p1, p2)
}

/// Builds the ball at simulation start: at the arena center, moving
/// diagonally at the base speed, with the ramp accumulator empty.
pub fn initial_ball() -> (r: Ball)
    ensures
        r@ == (BallModel {
            position: V2 { x: 0, y: 0 },
            velocity: V2 { x: 1, y: 1 },
            speed: BALL_BASE_SPEED as int,
            ramp_elapsed: 0,
        }),
        r@.wf(),
{
    Ball {
        position: Vec2 { x: 0, y: 0 },
        velocity: Vec2 { x: 1, y: 1 },
        speed: BALL_BASE_SPEED,
        ramp_elapsed: 0,
    }
}

/// Builds the whole starting state from the playfield's half extents.
pub fn initial_state(half_width: i64, half_height: i64) -> (r: GameState)
    requires
        0 < half_width <= crate::geometry::MAX_ARENA_DIM,
        0 < half_height <= crate::geometry::MAX_ARENA_DIM,
    ensures
        r@.wf(),
        r@.arena == Arena::new_spec(half_width as int, half_height as int),
        r@.ball == initial_ball_spec(),
        r@.paddle1.score == 0,
        r@.paddle2.score == 0,
        r@.paddle1.position == (V2 { x: -r@.arena.half_width + r@.arena.paddle_half_width, y: 0 }),
        r@.paddle2.position == (V2 { x: r@.arena.half_width - r@.arena.paddle_half_width, y: 0 }),
        r@.paddle1.binding == InputBinding::Wasd,
        r@.paddle2.binding == InputBinding::Arrows,
{
    let arena = Arena::new(half_width, half_height);
    let (paddle1, paddle2) = initial_paddles(&arena);
    let ball = initial_ball();
    GameState { arena, paddle1, paddle2, ball }
}

/// The starting ball value, as a mathematical record.
pub open spec fn initial_ball_spec() -> BallModel {
    BallModel {
        position: V2 { x: 0, y: 0 },
        velocity: V2 { x: 1, y: 1 },
        speed: BALL_BASE_SPEED as int,
        ramp_elapsed: 0,
    }
}

} // verus!
