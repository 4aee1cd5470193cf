//! Scoring judge: detects the ball leaving the arena horizontally, awards
//! the point, and resets the ball to the center at base speed. The ball's
//! direction and the ramp accumulator deliberately carry over across a
//! point; only the position and the scalar speed are reset.

use vstd::prelude::*;
use crate::entities::{BallModel, GameState, PaddleModel, StateModel};
use crate::geometry::{ArenaModel, V2, BALL_BASE_SPEED};

verus! {

/// The ball's right edge is past the right scoring boundary, which sits one
/// ball half width beyond the arena's right half extent.
pub open spec fn scored_right(b: BallModel, a: ArenaModel) -> bool {
    b.position.x + a.ball_half_width > a.half_width + a.ball_half_width
}

/// The ball's left edge is past the left scoring boundary, symmetric to the
/// right one.
pub open spec fn scored_left(b: BallModel, a: ArenaModel) -> bool {
    b.position.x - a.ball_half_width < -a.half_width - a.ball_half_width
}

/// The ball immediately after a point: back at the arena center at base
/// speed, its direction and ramp accumulator unchanged.
pub open spec fn ball_reset(b: BallModel) -> BallModel {
    BallModel {
        position: V2 { x: 0, y: 0 },
        velocity: b.velocity,
        speed: BALL_BASE_SPEED as int,
        ramp_elapsed: b.ramp_elapsed,
    }
}

/// A paddle with one more point.
pub open spec fn paddle_scored(p: PaddleModel) -> PaddleModel {
    PaddleModel { id: p.id, position: p.position, binding: p.binding, score: p.score + 1 }
}

/// The state after the scoring stage: a ball past the right boundary gives
/// paddle 1 the point, one past the left boundary gives it to paddle 2 (the
/// two cannot hold at once in a well-formed arena), and either resets the
/// ball; otherwise nothing changes.
pub open spec fn state_scored(s: StateModel) -> StateModel {
    if scored_right(s.ball, s.arena) {
        StateModel {
            arena: s.arena,
            paddle1: paddle_scored(s.paddle1),
            paddle2: s.paddle2,
            ball: ball_reset(s.ball),
        }
    } else if scored_left(s.ball, s.arena) {
        StateModel {
            arena: s.arena,
            paddle1: s.paddle1,
            paddle2: paddle_scored(s.paddle2),
            ball: ball_reset(s.ball),
        }
    } else {
        s
    }
}

/// Checks both scoring boundaries against the ball's position as it stood
/// on entry, awards the point, and resets the ball.
pub fn apply_scoring(s: &mut GameState)
    requires
        old(s)@.arena.wf(),
        scored_right(old(s)@.ball, old(s)@.arena) ==> old(s)@.paddle1.score < i32::MAX,
        scored_left(old(s)@.ball, old(s)@.arena) ==> old(s)@.paddle2.score < i32::MAX,
    ensures
        final(s)@ == state_scored(old(s)@),
        scored_right(old(s)@.ball, old(s)@.arena) || scored_left(old(s)@.ball, old(s)@.arena)
            ==> final(s)@.ball.position == (V2 { x: 0, y: 0 })
                && final(s)@.ball.speed == BALL_BASE_SPEED as int,
{
    let ball_x: i64 = s.ball.position.x;

    // Right edge past the right boundary: equivalent to comparing the
    // center against the half width, which cannot overflow.
    if ball_x > s.arena.half_width {
        s.paddle1.score = s.paddle1.score + 1;
        s.ball.speed = BALL_BASE_SPEED;
        s.ball.position.x = 0;
        s.ball.position.y = 0;
    }

    if ball_x < -s.arena.half_width {
        s.paddle2.score = s.paddle2.score + 1;
        s.ball.speed = BALL_BASE_SPEED;
        s.ball.position.x = 0;
        s.ball.position.y = 0;
    }
}

} // verus!
