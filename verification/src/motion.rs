//! Motion integrator and boundary clamp: advances paddle and ball positions
//! by one frame's elapsed time and keeps paddles inside the arena's vertical
//! extent.

use vstd::prelude::*;
use crate::entities::{Ball, BallModel, Paddle, PaddleModel};
use crate::geometry::{Arena, ArenaModel, V2, PADDLE_SPEED};

verus! {

/// A paddle after one frame of motion: its center moves vertically by
/// `intent * PADDLE_SPEED * dt` thousandths of a unit.
pub open spec fn paddle_moved(p: PaddleModel, intent: int, dt: int) -> PaddleModel {
    PaddleModel {
        id: p.id,
        position: V2 { x: p.position.x, y: p.position.y + intent * PADDLE_SPEED * dt },
        binding: p.binding,
        score: p.score,
    }
}

/// The ball after one frame of motion: each coordinate moves by the matching
/// direction component times the scalar speed times the elapsed time. The
/// direction's own magnitude compounds with `speed`; nothing normalizes it.
pub open spec fn ball_moved(b: BallModel, dt: int) -> BallModel {
    BallModel {
        position: V2 {
            x: b.position.x + b.velocity.x * b.speed * dt,
            y: b.position.y + b.velocity.y * b.speed * dt,
        },
        velocity: b.velocity,
        speed: b.speed,
        ramp_elapsed: b.ramp_elapsed,
    }
}

/// The machine can integrate the ball only when each intermediate product
/// and the final coordinates fit in an `i64`.
pub open spec fn ball_motion_fits(b: BallModel, dt: int) -> bool {
    &&& i64::MIN <= b.velocity.x * b.speed <= i64::MAX
    &&& i64::MIN <= b.velocity.x * b.speed * dt <= i64::MAX
    &&& i64::MIN <= b.position.x + b.velocity.x * b.speed * dt <= i64::MAX
    &&& i64::MIN <= b.velocity.y * b.speed <= i64::MAX
    &&& i64::MIN <= b.velocity.y * b.speed * dt <= i64::MAX
    &&& i64::MIN <= b.position.y + b.velocity.y * b.speed * dt <= i64::MAX
}

/// Moves one paddle by one frame of its player's intent. `dt` is the elapsed
/// frame time in milliseconds.
pub fn move_paddle(p: &mut Paddle, intent: i64, dt: i64)
    requires
        0 <= dt,
        -1 <= intent <= 1,
        PADDLE_SPEED * dt <= i64::MAX,
        i64::MIN <= old(p)@.position.y + intent * PADDLE_SPEED * dt <= i64::MAX,
    ensures
        final(p)@ == paddle_moved(old(p)@, intent as int, dt as int),
{
    let scaled: i64 = PADDLE_SPEED * dt;
    let dy: i64 = if intent == 1 {
        scaled
    } else if intent == -1 {
        proof {
            assert((-1) * PADDLE_SPEED * dt == -scaled);
        }
        -scaled
    } else {
        proof {
            assert(intent == 0);
            assert(0 * PADDLE_SPEED * dt == 0) by (nonlinear_arith);
        }
        0
    };
    assert(dy == intent * PADDLE_SPEED * dt);
    p.position.y = p.position.y + dy;
}

/// Moves the ball by one frame of its velocity and scalar speed.
pub fn move_ball(b: &mut Ball, dt: i64)
    requires
        0 <= dt,
        ball_motion_fits(old(b)@, dt as int),
    ensures
        final(b)@ == ball_moved(old(b)@, dt as int),
{
    let sx: i64 = b.velocity.x * b.speed;
    let sy: i64 = b.velocity.y * b.speed;
    b.position.x = b.position.x + sx * dt;
    b.position.y = b.position.y + sy * dt;
}

/// A vertical position clamped to `[lo, hi]`, checking the upper bound
/// first: exactly the two sequential corrections the boundary clamp applies.
pub open spec fn clamp_y(y: int, lo: int, hi: int) -> int {
    let capped = if y > hi { hi } else { y };
    if capped < lo { lo } else { capped }
}

/// A paddle after the boundary clamp: its center may not leave the arena's
/// vertical extent reduced by the paddle's half height.
pub open spec fn paddle_clamped(p: PaddleModel, a: ArenaModel) -> PaddleModel {
    PaddleModel {
        id: p.id,
        position: V2 {
            x: p.position.x,
            y: clamp_y(
                p.position.y,
                -a.half_height + a.paddle_half_height,
                a.half_height - a.paddle_half_height,
            ),
        },
        binding: p.binding,
        score: p.score,
    }
}

/// Keeps one paddle inside the arena's vertical extent.
pub fn clamp_paddle(p: &mut Paddle, arena: &Arena)
    requires
        arena@.wf(),
    ensures
        final(p)@ == paddle_clamped(old(p)@, arena@),
{
    let hi: i64 = arena.half_height - arena.paddle_half_height;
    let lo: i64 = -arena.half_height + arena.paddle_half_height;
    if p.position.y > hi {
        p.position.y = hi;
    }
    if p.position.y < lo {
        p.position.y = lo;
    }
}

/// Clamp idempotence: reapplying the boundary clamp to an already clamped
/// position is a no-op, for every position and every pair of bounds.
pub proof fn lemma_clamp_idempotent(y: int, lo: int, hi: int)
    ensures
        clamp_y(clamp_y(y, lo, hi), lo, hi) == clamp_y(y, lo, hi),
{
}

} // verus!
