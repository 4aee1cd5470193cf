//! Speed ramp: a repeating period timer over accumulated frame time. Every
//! full period crossed adds a fixed increment to the ball's scalar speed,
//! once per period even when a single oversized frame spans several.

use vstd::prelude::*;
use crate::entities::{Ball, BallModel};
use crate::geometry::{BALL_SPEED_INCREASE, SPEED_RAMP_PERIOD_MS};

verus! {

/// How many whole periods a nonnegative accumulated time contains: the
/// number of increments a catch-up repeating timer fires.
pub open spec fn crossings(elapsed: int, period: int) -> int
    decreases elapsed,
{
    if period <= 0 || elapsed < period {
        0
    } else {
        1 + crossings(elapsed - period, period)
    }
}

/// What remains of the accumulated time after removing every whole period.
pub open spec fn leftover(elapsed: int, period: int) -> int
    decreases elapsed,
{
    if period <= 0 || elapsed < period {
        elapsed
    } else {
        leftover(elapsed - period, period)
    }
}

/// The period count of a nonnegative accumulated time is itself nonnegative.
pub proof fn lemma_crossings_nonneg(elapsed: int, period: int)
    requires
        0 <= elapsed,
    ensures
        0 <= crossings(elapsed, period),
    decreases elapsed,
{
    if period > 0 && elapsed >= period {
        lemma_crossings_nonneg(elapsed - period, period);
    }
}

/// Whole periods and remainder decompose the accumulated time exactly.
pub proof fn lemma_crossings_decompose(elapsed: int, period: int)
    requires
        0 <= elapsed,
        0 < period,
    ensures
        0 <= crossings(elapsed, period),
        0 <= leftover(elapsed, period) < period,
        elapsed == crossings(elapsed, period) * period + leftover(elapsed, period),
    decreases elapsed,
{
    if elapsed >= period {
        lemma_crossings_decompose(elapsed - period, period);
        assert((crossings(elapsed - period, period) + 1) * period
            == crossings(elapsed - period, period) * period + period) by (nonlinear_arith);
    }
}

/// The crossing count is exactly the floor of accumulated time over period,
/// and the remainder is exactly the accumulated time modulo the period.
pub proof fn lemma_crossings_counts_periods(elapsed: int, period: int)
    requires
        0 <= elapsed,
        0 < period,
    ensures
        crossings(elapsed, period) == elapsed / period,
        leftover(elapsed, period) == elapsed % period,
{
    lemma_crossings_decompose(elapsed, period);
    vstd::arithmetic::div_mod::lemma_fundamental_div_mod_converse(
        elapsed,
        period,
        crossings(elapsed, period),
        leftover(elapsed, period),
    );
}

/// The ball after the ramp stage: the frame time joins the accumulator, one
/// increment is added per period crossed, and the accumulator keeps the
/// remainder. Nothing but scoring ever lowers the speed, and the ramp
/// accumulator is never reset by a point.
pub open spec fn ball_ramped(b: BallModel, dt: int) -> BallModel {
    BallModel {
        position: b.position,
        velocity: b.velocity,
        speed: b.speed
            + BALL_SPEED_INCREASE * crossings(b.ramp_elapsed + dt, SPEED_RAMP_PERIOD_MS as int),
        ramp_elapsed: leftover(b.ramp_elapsed + dt, SPEED_RAMP_PERIOD_MS as int),
    }
}

/// The machine can run the ramp only when the grown accumulator and the
/// grown speed fit in an `i64`.
pub open spec fn ramp_fits(b: BallModel, dt: int) -> bool {
    &&& b.ramp_elapsed + dt <= i64::MAX
    &&& b.speed + BALL_SPEED_INCREASE * crossings(b.ramp_elapsed + dt, SPEED_RAMP_PERIOD_MS as int)
        <= i64::MAX
}

/// Accumulates one frame's elapsed time and applies one speed increment per
/// period crossed, catching up over oversized frames.
pub fn ramp_speed(b: &mut Ball, dt: i64)
    requires
        0 <= dt,
        0 <= old(b).ramp_elapsed,
        ramp_fits(old(b)@, dt as int),
    ensures
        final(b)@ == ball_ramped(old(b)@, dt as int),
        final(b).speed >= old(b).speed,
{
    b.ramp_elapsed = b.ramp_elapsed + dt;
    while b.ramp_elapsed >= SPEED_RAMP_PERIOD_MS
        invariant
            0 <= b.ramp_elapsed,
            b.position == old(b).position,
            b.velocity == old(b).velocity,
            old(b).speed <= b.speed,
            b.speed + BALL_SPEED_INCREASE * crossings(b.ramp_elapsed as int, SPEED_RAMP_PERIOD_MS as int)
                == old(b).speed
                    + BALL_SPEED_INCREASE
                        * crossings(old(b).ramp_elapsed + dt, SPEED_RAMP_PERIOD_MS as int),
            leftover(b.ramp_elapsed as int, SPEED_RAMP_PERIOD_MS as int)
                == leftover(old(b).ramp_elapsed + dt, SPEED_RAMP_PERIOD_MS as int),
            b.speed + BALL_SPEED_INCREASE * crossings(b.ramp_elapsed as int, SPEED_RAMP_PERIOD_MS as int)
                <= i64::MAX,
        decreases b.ramp_elapsed,
    {
        proof {
            let p: int = SPEED_RAMP_PERIOD_MS as int;
            let e: int = b.ramp_elapsed as int;
            lemma_crossings_nonneg(e - p, p);
            assert(crossings(e, p) == 1 + crossings(e - p, p));
            assert(b.speed + BALL_SPEED_INCREASE <= i64::MAX);
        }
        b.ramp_elapsed = b.ramp_elapsed - SPEED_RAMP_PERIOD_MS;
        b.speed = b.speed + BALL_SPEED_INCREASE;
    }
    proof {
        lemma_crossings_nonneg(old(b).ramp_elapsed + dt, SPEED_RAMP_PERIOD_MS as int);
    }
}

} // verus!
