//! Tests of the individual pipeline stages: input mapping, motion, clamp,
//! collision response, scoring, and the speed ramp.

use pong_core::collision::bounce_ball;
use pong_core::entities::{initial_ball, initial_paddles, Ball, GameState, InputBinding, Keys, Paddle};
use pong_core::geometry::{Arena, Vec2, BALL_BASE_SPEED};
use pong_core::input::paddle_intent;
use pong_core::motion::{clamp_paddle, move_ball, move_paddle};
use pong_core::ramp::ramp_speed;
use pong_core::scoring::apply_scoring;

fn test_arena() -> Arena {
    // Half extents 400 by 300 units, in thousandths.
    Arena::new(400_000, 300_000)
}

fn paddle_at(id: i8, x: i64, y: i64, binding: InputBinding) -> Paddle {
    Paddle {
        id,
        position: Vec2 { x, y },
        binding,
        score: 0,
    }
}

fn ball_at(x: i64, y: i64, vx: i64, vy: i64, speed: i64) -> Ball {
    Ball {
        position: Vec2 { x, y },
        velocity: Vec2 { x: vx, y: vy },
        speed,
        ramp_elapsed: 0,
    }
}

fn no_keys() -> Keys {
    Keys { up: false, down: false, w: false, s: false }
}

#[test]
fn intent_maps_each_binding() {
    let arrows = InputBinding::Arrows;
    let wasd = InputBinding::Wasd;
    assert_eq!(paddle_intent(&Keys { up: true, ..no_keys() }, &arrows), 1);
    assert_eq!(paddle_intent(&Keys { down: true, ..no_keys() }, &arrows), -1);
    assert_eq!(paddle_intent(&Keys { w: true, ..no_keys() }, &wasd), 1);
    assert_eq!(paddle_intent(&Keys { s: true, ..no_keys() }, &wasd), -1);
    // Keys of the other binding do not leak over.
    assert_eq!(paddle_intent(&Keys { w: true, s: true, ..no_keys() }, &arrows), 0);
    assert_eq!(paddle_intent(&Keys { up: true, down: true, ..no_keys() }, &wasd), 0);
}

#[test]
fn intent_cancels_when_both_keys_held() {
    let arrows = InputBinding::Arrows;
    let both = Keys { up: true, down: true, w: false, s: false };
    assert_eq!(paddle_intent(&both, &arrows), 0);
    assert_eq!(paddle_intent(&both, &arrows), paddle_intent(&no_keys(), &arrows));
    let wasd = InputBinding::Wasd;
    let both_wasd = Keys { up: false, down: false, w: true, s: true };
    assert_eq!(paddle_intent(&both_wasd, &wasd), 0);
    assert_eq!(paddle_intent(&both_wasd, &wasd), paddle_intent(&no_keys(), &wasd));
}

#[test]
fn paddle_move_then_clamp_scenario() {
    // Paddle at y = 0, intent +1 for one full second at 500 units/s moves it
    // to 500 units; a 300-unit half-height arena with a 50-unit half-height
    // paddle clamps it back to 250 units.
    let arena = test_arena();
    let mut p = paddle_at(1, -390_000, 0, InputBinding::Wasd);
    move_paddle(&mut p, 1, 1000);
    assert_eq!(p.position.y, 500_000);
    clamp_paddle(&mut p, &arena);
    assert_eq!(p.position.y, 250_000);
}

#[test]
fn clamp_is_idempotent_on_concrete_positions() {
    let arena = test_arena();
    for y in [-700_000i64, -250_000, 0, 249_999, 250_000, 700_000] {
        let mut p = paddle_at(1, -390_000, y, InputBinding::Wasd);
        clamp_paddle(&mut p, &arena);
        let once: i64 = p.position.y;
        clamp_paddle(&mut p, &arena);
        assert_eq!(p.position.y, once);
    }
}

#[test]
fn clamp_lower_bound() {
    let arena = test_arena();
    let mut p = paddle_at(2, 390_000, -600_000, InputBinding::Arrows);
    clamp_paddle(&mut p, &arena);
    assert_eq!(p.position.y, -250_000);
}

#[test]
fn ball_moves_by_velocity_times_speed_times_time() {
    // 16 ms at speed 100 with direction (1, -1): 1.6 units each way.
    let mut b = ball_at(10_000, 20_000, 1, -1, 100);
    move_ball(&mut b, 16);
    assert_eq!(b.position.x, 11_600);
    assert_eq!(b.position.y, 18_400);
    // An unnormalized direction compounds with the scalar speed.
    let mut fast = ball_at(0, 0, 2, 0, 100);
    move_ball(&mut fast, 16);
    assert_eq!(fast.position.x, 3_200);
}

#[test]
fn wall_bounce_flips_vertical_direction() {
    let arena = test_arena();
    let p1 = paddle_at(1, -390_000, 0, InputBinding::Wasd);
    let p2 = paddle_at(2, 390_000, 0, InputBinding::Arrows);
    // Top edge past the upper wall: y + 10 > 300 units.
    let mut b = ball_at(0, 295_000, 1, 1, 100);
    bounce_ball(&mut b, &p1, &p2, &arena);
    assert_eq!(b.velocity.y, -1);
    assert_eq!(b.velocity.x, 1);
    // The ball is not repositioned: only the direction flips.
    assert_eq!(b.position.y, 295_000);
    // Bottom wall, symmetric.
    let mut low = ball_at(0, -295_000, 1, -1, 100);
    bounce_ball(&mut low, &p1, &p2, &arena);
    assert_eq!(low.velocity.y, 1);
}

#[test]
fn paddle_bounce_flips_horizontal_direction() {
    let arena = test_arena();
    let p1 = paddle_at(1, -390_000, 0, InputBinding::Wasd);
    let p2 = paddle_at(2, 390_000, 0, InputBinding::Arrows);
    // Ball rectangle overlaps paddle 2's rectangle.
    let mut b = ball_at(385_000, 30_000, 1, 1, 100);
    bounce_ball(&mut b, &p1, &p2, &arena);
    assert_eq!(b.velocity.x, -1);
    assert_eq!(b.velocity.y, 1);
    // No overlap: nothing flips.
    let mut free = ball_at(0, 0, 1, 1, 100);
    bounce_ball(&mut free, &p1, &p2, &arena);
    assert_eq!(free.velocity.x, 1);
    assert_eq!(free.velocity.y, 1);
}

#[test]
fn overlapping_both_paddles_cancels_to_original_direction() {
    // Known edge case: the per-paddle checks run independently, so a ball
    // overlapping both paddles in one frame has its direction negated twice.
    let arena = test_arena();
    let p1 = paddle_at(1, -5_000, 0, InputBinding::Wasd);
    let p2 = paddle_at(2, 5_000, 0, InputBinding::Arrows);
    let mut b = ball_at(0, 0, 1, 1, 100);
    bounce_ball(&mut b, &p1, &p2, &arena);
    assert_eq!(b.velocity.x, 1);
}

#[test]
fn scoring_right_boundary_scenario() {
    // Ball at x = 395: right edge 405 is not past 410, no score.
    let arena = test_arena();
    let (p1, p2) = initial_paddles(&arena);
    let mut gs = GameState { arena, paddle1: p1, paddle2: p2, ball: ball_at(395_000, 0, 1, 1, 250) };
    apply_scoring(&mut gs);
    assert_eq!(gs.paddle1.score, 0);
    assert_eq!(gs.paddle2.score, 0);
    assert_eq!(gs.ball.position.x, 395_000);
    assert_eq!(gs.ball.speed, 250);

    // Ball at x = 401: right edge 411 is past 410, paddle 1 scores and the
    // ball resets to the center at base speed.
    let mut gs2 = GameState { arena, paddle1: p1, paddle2: p2, ball: ball_at(401_000, 7_000, 1, -1, 250) };
    apply_scoring(&mut gs2);
    assert_eq!(gs2.paddle1.score, 1);
    assert_eq!(gs2.paddle2.score, 0);
    assert_eq!(gs2.ball.position.x, 0);
    assert_eq!(gs2.ball.position.y, 0);
    assert_eq!(gs2.ball.speed, BALL_BASE_SPEED);
    // The direction carries over through the reset.
    assert_eq!(gs2.ball.velocity.x, 1);
    assert_eq!(gs2.ball.velocity.y, -1);
}

#[test]
fn scoring_left_boundary_gives_paddle_two_the_point() {
    let arena = test_arena();
    let (p1, p2) = initial_paddles(&arena);
    let mut gs = GameState { arena, paddle1: p1, paddle2: p2, ball: ball_at(-401_000, 0, -1, 1, 300) };
    apply_scoring(&mut gs);
    assert_eq!(gs.paddle1.score, 0);
    assert_eq!(gs.paddle2.score, 1);
    assert_eq!(gs.ball.position.x, 0);
    assert_eq!(gs.ball.speed, BALL_BASE_SPEED);
}

#[test]
fn scoring_does_not_reset_ramp_accumulator() {
    let arena = test_arena();
    let (p1, p2) = initial_paddles(&arena);
    let mut ball = ball_at(401_000, 0, 1, 1, 250);
    ball.ramp_elapsed = 9_000;
    let mut gs = GameState { arena, paddle1: p1, paddle2: p2, ball };
    apply_scoring(&mut gs);
    assert_eq!(gs.ball.speed, BALL_BASE_SPEED);
    assert_eq!(gs.ball.ramp_elapsed, 9_000);
}

#[test]
fn ramp_crossings_at_exactly_twenty_five_seconds() {
    // Speed 100, period 10 s, increment 25: frames summing to exactly 25 s
    // cross the 10 s and 20 s boundaries, so two increments fire; the third
    // fires only once the 30 s boundary is reached.
    let mut b = initial_ball();
    for _ in 0..25 {
        ramp_speed(&mut b, 1000);
    }
    assert_eq!(b.speed, 150);
    assert_eq!(b.ramp_elapsed, 5_000);
    ramp_speed(&mut b, 5000);
    assert_eq!(b.speed, 175);
    assert_eq!(b.ramp_elapsed, 0);
}

#[test]
fn ramp_catches_up_over_one_oversized_frame() {
    // A single 25 s frame spans two whole periods: both increments fire.
    let mut b = initial_ball();
    ramp_speed(&mut b, 25_000);
    assert_eq!(b.speed, 150);
    assert_eq!(b.ramp_elapsed, 5_000);
}

#[test]
fn ramp_never_lowers_speed() {
    let mut b = initial_ball();
    let mut last = b.speed;
    for dt in [0i64, 16, 9_999, 1, 30_000, 4] {
        ramp_speed(&mut b, dt);
        assert!(b.speed >= last);
        last = b.speed;
    }
}
