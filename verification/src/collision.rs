//! Collision resolver: reflects the ball's direction off the top and bottom
//! walls and off either paddle. It runs on the ball's freshly integrated
//! position and never repositions the ball; only the direction flips, so a
//! ball that stays out of bounds or embedded can trigger again next frame.

use vstd::prelude::*;
use crate::entities::{Ball, BallModel, Paddle, PaddleModel};
use crate::geometry::{Arena, ArenaModel, V2};

verus! {

/// Strict axis-aligned overlap of two rectangles given by center and half
/// size: touching edges do not count as overlap.
pub open spec fn rects_overlap(pos_a: V2, half_a: V2, pos_b: V2, half_b: V2) -> bool {
    &&& pos_a.x - half_a.x < pos_b.x + half_b.x
    &&& pos_a.x + half_a.x > pos_b.x - half_b.x
    &&& pos_a.y - half_a.y < pos_b.y + half_b.y
    &&& pos_a.y + half_a.y > pos_b.y - half_b.y
}

/// The ball's top edge is above the arena's upper wall.
pub open spec fn past_top_wall(b: BallModel, a: ArenaModel) -> bool {
    b.position.y > a.half_height - a.ball_half_height
}

/// The ball's bottom edge is below the arena's lower wall.
pub open spec fn past_bottom_wall(b: BallModel, a: ArenaModel) -> bool {
    b.position.y < -a.half_height + a.ball_half_height
}

/// The ball after the wall check: each wall the ball is past negates the
/// vertical direction once, so being past both walls at once (possible only
/// when the ball is taller than the arena) cancels back to the original.
pub open spec fn ball_walled(b: BallModel, a: ArenaModel) -> BallModel {
    BallModel {
        position: b.position,
        velocity: V2 {
            x: b.velocity.x,
            y: if past_top_wall(b, a) != past_bottom_wall(b, a) {
                -b.velocity.y
            } else {
                b.velocity.y
            },
        },
        speed: b.speed,
        ramp_elapsed: b.ramp_elapsed,
    }
}

/// The ball's rectangle strictly overlaps this paddle's rectangle.
pub open spec fn hits_paddle(b: BallModel, p: PaddleModel, a: ArenaModel) -> bool {
    rects_overlap(
        b.position,
        V2 { x: a.ball_half_width, y: a.ball_half_height },
        p.position,
        V2 { x: a.paddle_half_width, y: a.paddle_half_height },
    )
}

/// The ball after the per-paddle checks: each overlapping paddle negates the
/// horizontal direction once, so overlapping both paddles in the same frame
/// is a double negation back to the original — a known, accepted edge case.
pub open spec fn ball_paddled(b: BallModel, p1: PaddleModel, p2: PaddleModel, a: ArenaModel) -> BallModel {
    BallModel {
        position: b.position,
        velocity: V2 {
            x: if hits_paddle(b, p1, a) != hits_paddle(b, p2, a) {
                -b.velocity.x
            } else {
                b.velocity.x
            },
            y: b.velocity.y,
        },
        speed: b.speed,
        ramp_elapsed: b.ramp_elapsed,
    }
}

/// The ball after the whole collision stage: walls first, then paddles.
pub open spec fn ball_collided(b: BallModel, p1: PaddleModel, p2: PaddleModel, a: ArenaModel) -> BallModel {
    ball_paddled(ball_walled(b, a), p1, p2, a)
}

/// The machine can run the overlap tests only when the ball's and the
/// paddles' edge coordinates fit in an `i64`; the direction components must
/// also be negatable.
pub open spec fn collision_fits(b: BallModel, p1: PaddleModel, p2: PaddleModel, a: ArenaModel) -> bool {
    &&& i64::MIN <= b.position.x - a.ball_half_width
    &&& b.position.x + a.ball_half_width <= i64::MAX
    &&& i64::MIN <= b.position.y - a.ball_half_height
    &&& b.position.y + a.ball_half_height <= i64::MAX
    &&& i64::MIN <= p1.position.x - a.paddle_half_width
    &&& p1.position.x + a.paddle_half_width <= i64::MAX
    &&& i64::MIN <= p1.position.y - a.paddle_half_height
    &&& p1.position.y + a.paddle_half_height <= i64::MAX
    &&& i64::MIN <= p2.position.x - a.paddle_half_width
    &&& p2.position.x + a.paddle_half_width <= i64::MAX
    &&& i64::MIN <= p2.position.y - a.paddle_half_height
    &&& p2.position.y + a.paddle_half_height <= i64::MAX
    &&& i64::MIN < b.velocity.x
    &&& i64::MIN < b.velocity.y
}

/// Strict overlap test between the ball's rectangle and one paddle's.
fn overlaps(ball_pos: &crate::geometry::Vec2, paddle_pos: &crate::geometry::Vec2, arena: &Arena) -> (r: bool)
    requires
        arena@.wf(),
        i64::MIN <= ball_pos@.x - arena@.ball_half_width,
        ball_pos@.x + arena@.ball_half_width <= i64::MAX,
        i64::MIN <= ball_pos@.y - arena@.ball_half_height,
        ball_pos@.y + arena@.ball_half_height <= i64::MAX,
        i64::MIN <= paddle_pos@.x - arena@.paddle_half_width,
        paddle_pos@.x + arena@.paddle_half_width <= i64::MAX,
        i64::MIN <= paddle_pos@.y - arena@.paddle_half_height,
        paddle_pos@.y + arena@.paddle_half_height <= i64::MAX,
    ensures
        r == rects_overlap(
            ball_pos@,
            V2 { x: arena@.ball_half_width, y: arena@.ball_half_height },
            paddle_pos@,
            V2 { x: arena@.paddle_half_width, y: arena@.paddle_half_height },
        ),
{
    ball_pos.x - arena.ball_half_width < paddle_pos.x + arena.paddle_half_width
        && ball_pos.x + arena.ball_half_width > paddle_pos.x - arena.paddle_half_width
        && ball_pos.y - arena.ball_half_height < paddle_pos.y + arena.paddle_half_height
        && ball_pos.y + arena.ball_half_height > paddle_pos.y - arena.paddle_half_height
}

/// Runs the whole collision stage on the ball: the two wall checks, then an
/// independent overlap check against each paddle.
pub fn bounce_ball(b: &mut Ball, paddle1: &Paddle, paddle2: &Paddle, arena: &Arena)
    requires
        arena@.wf(),
        collision_fits(old(b)@, paddle1@, paddle2@, arena@),
    ensures
        final(b)@ == ball_collided(old(b)@, paddle1@, paddle2@, arena@),
{
    let top: i64 = arena.half_height - arena.ball_half_height;
    let bottom: i64 = -arena.half_height + arena.ball_half_height;
    if b.position.y > top {
        b.velocity.y = -b.velocity.y;
    }
    if b.position.y < bottom {
        b.velocity.y = -b.velocity.y;
    }
    if overlaps(&b.position, &paddle1.position, arena) {
        b.velocity.x = -b.velocity.x;
    }
    if overlaps(&b.position, &paddle2.position, arena) {
        b.velocity.x = -b.velocity.x;
    }
}

/// Wall bounce sign flip: when the ball's top edge is past the upper wall
/// (and its bottom edge is not past the lower one), the resolved vertical
/// direction is the exact negation of the incoming one.
pub proof fn lemma_wall_bounce_sign_flip(b: BallModel, a: ArenaModel)
    requires
        past_top_wall(b, a),
        !past_bottom_wall(b, a),
    ensures
        ball_walled(b, a).velocity.y == -b.velocity.y,
{
}

} // verus!
