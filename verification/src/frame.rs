//! Frame orchestrator: runs the per-frame pipeline in its fixed order —
//! input mapping, paddle motion and clamp, ball motion, collision response,
//! scoring, then the speed ramp — and exposes the whole frame as one
//! mathematical function of the previous state, the held keys and the
//! elapsed time.

use vstd::prelude::*;
use crate::collision::{ball_collided, bounce_ball, collision_fits};
use crate::entities::{GameState, Keys, StateModel};
use crate::geometry::{PADDLE_SPEED, SPEED_RAMP_PERIOD_MS};
use crate::input::{intent_of, paddle_intent};
use crate::motion::{
    ball_moved, ball_motion_fits, clamp_paddle, move_ball, move_paddle, paddle_clamped,
    paddle_moved,
};
use crate::ramp::{
    ball_ramped, lemma_crossings_decompose, lemma_crossings_nonneg, ramp_fits, ramp_speed,
};
use crate::scoring::{apply_scoring, scored_left, scored_right, state_scored};

verus! {

/// The state after the paddle stages and the ball stages, before scoring:
/// both paddles moved by their intents and clamped, the ball moved and its
/// direction reflected off walls and paddles.
pub open spec fn pre_scoring(s: StateModel, keys: Keys, dt: int) -> StateModel {
    let p1 = paddle_clamped(paddle_moved(s.paddle1, intent_of(keys, s.paddle1.binding), dt), s.arena);
    let p2 = paddle_clamped(paddle_moved(s.paddle2, intent_of(keys, s.paddle2.binding), dt), s.arena);
    let bc = ball_collided(ball_moved(s.ball, dt), p1, p2, s.arena);
    StateModel { arena: s.arena, paddle1: p1, paddle2: p2, ball: bc }
}

/// One whole simulated frame, as a mathematical function: the pre-scoring
/// pipeline, then the scoring judge, then the speed ramp.
pub open spec fn step_spec(s: StateModel, keys: Keys, dt: int) -> StateModel {
    let sc = state_scored(pre_scoring(s, keys, dt));
    StateModel {
        arena: sc.arena,
        paddle1: sc.paddle1,
        paddle2: sc.paddle2,
        ball: ball_ramped(sc.ball, dt),
    }
}

/// Whether this frame's ball position produces a scoring event.
pub open spec fn step_scores(s: StateModel, keys: Keys, dt: int) -> bool {
    let sp = pre_scoring(s, keys, dt);
    scored_right(sp.ball, s.arena) || scored_left(sp.ball, s.arena)
}

/// The machine can run one frame only when every intermediate value of the
/// pipeline fits its integer type.
pub open spec fn step_fits(s: StateModel, keys: Keys, dt: int) -> bool {
    let sp = pre_scoring(s, keys, dt);
    &&& PADDLE_SPEED * dt <= i64::MAX
    &&& i64::MIN <= s.paddle1.position.y + intent_of(keys, s.paddle1.binding) * PADDLE_SPEED * dt
        <= i64::MAX
    &&& i64::MIN <= s.paddle2.position.y + intent_of(keys, s.paddle2.binding) * PADDLE_SPEED * dt
        <= i64::MAX
    &&& ball_motion_fits(s.ball, dt)
    &&& collision_fits(ball_moved(s.ball, dt), sp.paddle1, sp.paddle2, s.arena)
    &&& (scored_right(sp.ball, s.arena) ==> s.paddle1.score < i32::MAX)
    &&& (scored_left(sp.ball, s.arena) ==> s.paddle2.score < i32::MAX)
    &&& ramp_fits(state_scored(sp).ball, dt)
}

/// Advances the simulation by one frame: `keys` is this frame's snapshot of
/// held keys and `dt` the elapsed time since the previous frame, in
/// milliseconds.
pub fn step_frame(s: &mut GameState, keys: &Keys, dt: i64)
    requires
        0 <= dt,
        old(s)@.arena.wf(),
        0 <= old(s)@.ball.ramp_elapsed,
        step_fits(old(s)@, *keys, dt as int),
    ensures
        final(s)@ == step_spec(old(s)@, *keys, dt as int),
        !step_scores(old(s)@, *keys, dt as int)
            ==> final(s)@.ball.speed >= old(s)@.ball.speed,
{
    let intent1: i64 = paddle_intent(keys, &s.paddle1.binding);
    let intent2: i64 = paddle_intent(keys, &s.paddle2.binding);
    move_paddle(&mut s.paddle1, intent1, dt);
    clamp_paddle(&mut s.paddle1, &s.arena);
    move_paddle(&mut s.paddle2, intent2, dt);
    clamp_paddle(&mut s.paddle2, &s.arena);
    move_ball(&mut s.ball, dt);
    bounce_ball(&mut s.ball, &s.paddle1, &s.paddle2, &s.arena);
    apply_scoring(s);
    ramp_speed(&mut s.ball, dt);
    proof {
        lemma_crossings_nonneg(
            old(s)@.ball.ramp_elapsed + dt,
            SPEED_RAMP_PERIOD_MS as int,
        );
    }
}

/// Speed monotonicity within one frame of a rally: a frame without a
/// scoring event never lowers the ball's scalar speed.
pub proof fn lemma_step_speed_monotone(s: StateModel, keys: Keys, dt: int)
    requires
        0 <= dt,
        0 <= s.ball.ramp_elapsed,
        !step_scores(s, keys, dt),
    ensures
        step_spec(s, keys, dt).ball.speed >= s.ball.speed,
{
    lemma_crossings_nonneg(s.ball.ramp_elapsed + dt, SPEED_RAMP_PERIOD_MS as int);
}

/// A frame keeps the ramp accumulator nonnegative (and inside one period),
/// so frames can be chained.
pub proof fn lemma_step_preserves_ramp_bounds(s: StateModel, keys: Keys, dt: int)
    requires
        0 <= dt,
        0 <= s.ball.ramp_elapsed,
    ensures
        0 <= step_spec(s, keys, dt).ball.ramp_elapsed < SPEED_RAMP_PERIOD_MS,
{
    lemma_crossings_decompose(s.ball.ramp_elapsed + dt, SPEED_RAMP_PERIOD_MS as int);
}

/// A frame preserves the state's validity: the arena is untouched, scores
/// only grow, the scalar speed stays positive, and the ramp accumulator
/// stays inside one period — so any number of frames can be chained.
pub proof fn lemma_step_preserves_wf(s: StateModel, keys: Keys, dt: int)
    requires
        0 <= dt,
        s.wf(),
    ensures
        step_spec(s, keys, dt).wf(),
        step_spec(s, keys, dt).arena == s.arena,
        step_spec(s, keys, dt).paddle1.score >= s.paddle1.score,
        step_spec(s, keys, dt).paddle2.score >= s.paddle2.score,
{
    lemma_step_preserves_ramp_bounds(s, keys, dt);
    lemma_crossings_nonneg(s.ball.ramp_elapsed + dt, SPEED_RAMP_PERIOD_MS as int);
}

/// One frame's input: the keys held during the frame and its elapsed time.
pub ghost struct FrameInput {
    pub keys: Keys,
    pub dt: int,
}

/// The state after a whole sequence of frames.
pub open spec fn run_spec(s: StateModel, inputs: Seq<FrameInput>) -> StateModel
    decreases inputs.len(),
{
    if inputs.len() == 0 {
        s
    } else {
        run_spec(step_spec(s, inputs[0].keys, inputs[0].dt), inputs.drop_first())
    }
}

/// Speed monotonicity between resets: over any sequence of frames in which
/// no frame produces a scoring event (one rally), the ball's scalar speed is
/// non-decreasing.
pub proof fn lemma_rally_speed_monotone(s: StateModel, inputs: Seq<FrameInput>)
    requires
        0 <= s.ball.ramp_elapsed,
        forall|i: int| 0 <= i < inputs.len() ==> 0 <= (#[trigger] inputs[i]).dt,
        forall|i: int|
            0 <= i < inputs.len() ==> !step_scores(
                run_spec(s, inputs.take(i)),
                (#[trigger] inputs[i]).keys,
                inputs[i].dt,
            ),
    ensures
        run_spec(s, inputs).ball.speed >= s.ball.speed,
    decreases inputs.len(),
{
    if inputs.len() > 0 {
        let first = inputs[0];
        let s1 = step_spec(s, first.keys, first.dt);
        let rest = inputs.drop_first();
        assert(inputs.take(0) =~= Seq::<FrameInput>::empty());
        assert(run_spec(s, inputs.take(0)) == s);
        lemma_step_speed_monotone(s, first.keys, first.dt);
        lemma_step_preserves_ramp_bounds(s, first.keys, first.dt);
        assert forall|j: int| 0 <= j < rest.len() implies 0 <= (#[trigger] rest[j]).dt by {
            assert(rest[j] == inputs[j + 1]);
        };
        assert forall|j: int|
            0 <= j < rest.len() implies !step_scores(
                run_spec(s1, rest.take(j)),
                (#[trigger] rest[j]).keys,
                rest[j].dt,
            ) by {
            assert(rest[j] == inputs[j + 1]);
            assert(inputs.take(j + 1).drop_first() =~= rest.take(j));
            assert(inputs.take(j + 1)[0] == inputs[0]);
            assert(run_spec(s, inputs.take(j + 1)) == run_spec(s1, rest.take(j)));
        };
        lemma_rally_speed_monotone(s1, rest);
        assert(run_spec(s, inputs) == run_spec(s1, rest));
    }
}

} // verus!
