//! Per-tick velocity shaping and movement: damping of the ball, the
//! mapping from held keys to paddle velocities, and position
//! integration.
//!
//! Damping and key-release decay share one rule per axis: a positive
//! component loses DECAY_STEP and is floored at -MAX_SPEED, a negative
//! one gains DECAY_STEP and is capped at MAX_SPEED, zero stays zero.
//! A component smaller than the step crosses zero without being clamped
//! to exactly zero; that overshoot is part of the game's behaviour and
//! is kept.
use vstd::prelude::*;

verus! {

use crate::entity::{Entity, Velocity};
use crate::num::abs_int;
use crate::{DECAY_STEP, INPUT_ACCEL, MAX_SPEED, PASS_BOUND};

/// One decay step of a coasting velocity component, toward zero.
pub open spec fn decayed(v: int) -> int {
    if v > 0 {
        let w = v - DECAY_STEP;
        if w < -MAX_SPEED {
            -MAX_SPEED as int
        } else {
            w
        }
    } else if v < 0 {
        let w = v + DECAY_STEP;
        if w > MAX_SPEED {
            MAX_SPEED as int
        } else {
            w
        }
    } else {
        v
    }
}

/// One tick of acceleration in the positive direction, capped at
/// MAX_SPEED.
pub open spec fn accelerated_pos(v: int) -> int {
    let w = v + INPUT_ACCEL;
    if w > MAX_SPEED {
        MAX_SPEED as int
    } else {
        w
    }
}

/// One tick of acceleration in the negative direction, capped at
/// -MAX_SPEED.
pub open spec fn accelerated_neg(v: int) -> int {
    let w = v - INPUT_ACCEL;
    if w < -MAX_SPEED {
        -MAX_SPEED as int
    } else {
        w
    }
}

/// The vertical input rule: the up key wins over the down key; with
/// neither held the component decays.
pub open spec fn input_axis_vertical(v: int, up: bool, down: bool) -> int {
    if up {
        accelerated_pos(v)
    } else if down {
        accelerated_neg(v)
    } else {
        decayed(v)
    }
}

/// The horizontal input rule: the key toward positive x wins over the
/// key toward negative x; with neither held the component decays.
pub open spec fn input_axis_horizontal(v: int, neg: bool, pos: bool) -> int {
    if pos {
        accelerated_pos(v)
    } else if neg {
        accelerated_neg(v)
    } else {
        decayed(v)
    }
}

/// Which keys a player holds this tick.
#[derive(Clone, Copy, PartialEq, Eq, Structural, Debug, Default)]
pub struct PaddleInput {
    pub up: bool,
    pub down: bool,
    pub left: bool,
    pub right: bool,
    pub shoot: bool,
}

/// One decay step of one velocity component.
pub fn decay_component(v: i128) -> (r: i128)
    requires
        -PASS_BOUND <= v <= PASS_BOUND,
    ensures
        r == decayed(v as int),
{
    if v > 0 {
        let w = v - DECAY_STEP;
        if w < -MAX_SPEED {
            -MAX_SPEED
        } else {
            w
        }
    } else if v < 0 {
        let w = v + DECAY_STEP;
        if w > MAX_SPEED {
            MAX_SPEED
        } else {
            w
        }
    } else {
        v
    }
}

/// Damps the ball's velocity one tick, each axis independently.
pub fn damp_velocity(vel: &mut Velocity)
    requires
        -PASS_BOUND <= old(vel).x <= PASS_BOUND,
        -PASS_BOUND <= old(vel).y <= PASS_BOUND,
    ensures
        final(vel).x == decayed(old(vel).x as int),
        final(vel).y == decayed(old(vel).y as int),
        -MAX_SPEED <= old(vel).x <= MAX_SPEED ==> -MAX_SPEED <= final(vel).x <= MAX_SPEED,
        -MAX_SPEED <= old(vel).y <= MAX_SPEED ==> -MAX_SPEED <= final(vel).y <= MAX_SPEED,
{
    vel.x = decay_component(vel.x);
    vel.y = decay_component(vel.y);
}

/// Applies one tick of a player's held keys to the paddle's velocity:
/// first the vertical axis, then the horizontal one.
pub fn apply_held_keys(vel: &mut Velocity, input: PaddleInput)
    requires
        -PASS_BOUND <= old(vel).x <= PASS_BOUND,
        -PASS_BOUND <= old(vel).y <= PASS_BOUND,
    ensures
        final(vel).y == input_axis_vertical(old(vel).y as int, input.up, input.down),
        final(vel).x == input_axis_horizontal(old(vel).x as int, input.left, input.right),
        -MAX_SPEED <= old(vel).x <= MAX_SPEED ==> -MAX_SPEED <= final(vel).x <= MAX_SPEED,
        -MAX_SPEED <= old(vel).y <= MAX_SPEED ==> -MAX_SPEED <= final(vel).y <= MAX_SPEED,
{
    if input.up {
        let w = vel.y + INPUT_ACCEL;
        vel.y = if w > MAX_SPEED {
            MAX_SPEED
        } else {
            w
        };
    } else if input.down {
        let w = vel.y - INPUT_ACCEL;
        vel.y = if w < -MAX_SPEED {
            -MAX_SPEED
        } else {
            w
        };
    } else {
        vel.y = decay_component(vel.y);
    }
    if input.right {
        let w = vel.x + INPUT_ACCEL;
        vel.x = if w > MAX_SPEED {
            MAX_SPEED
        } else {
            w
        };
    } else if input.left {
        let w = vel.x - INPUT_ACCEL;
        vel.x = if w < -MAX_SPEED {
            -MAX_SPEED
        } else {
            w
        };
    } else {
        vel.x = decay_component(vel.x);
    }
}

/// Moves an entity by its velocity, one tick.
pub fn integrate(e: &mut Entity)
    requires
        old(e).bounded(PASS_BOUND as int),
    ensures
        final(e).pos.x == old(e).pos.x + old(e).vel.x,
        final(e).pos.y == old(e).pos.y + old(e).vel.y,
        final(e).vel == old(e).vel,
        final(e).radius == old(e).radius,
        final(e).role == old(e).role,
{
    e.pos.x = e.pos.x + e.vel.x;
    e.pos.y = e.pos.y + e.vel.y;
}

/// One damping step brings a nonzero component strictly closer to zero,
/// or carries it just past zero, overshooting by at most the decay step.
pub proof fn lemma_damping_shrinks(v: int)
    requires
        v != 0,
    ensures
        abs_int(decayed(v)) < abs_int(v) || (v > 0 && -DECAY_STEP <= decayed(v) <= 0) || (v < 0
            && 0 <= decayed(v) <= DECAY_STEP),
{
}

/// Iterated damping of one component.
pub open spec fn decayed_n(v: int, n: nat) -> int
    decreases n,
{
    if n == 0 {
        v
    } else {
        decayed_n(decayed(v), (n - 1) as nat)
    }
}

/// A component that is a whole multiple of the decay step reaches
/// exactly zero, in one step per multiple.
pub proof fn lemma_damping_converges(v: int)
    requires
        v % (DECAY_STEP as int) == 0,
    ensures
        decayed_n(v, (abs_int(v) / DECAY_STEP as int) as nat) == 0,
    decreases abs_int(v),
{
    if v != 0 {
        lemma_damping_converges(decayed(v));
    }
}

/// Neither damping nor any input rule pushes a component that is within
/// the speed cap beyond it.
pub proof fn lemma_speed_cap_preserved(v: int, held_a: bool, held_b: bool)
    requires
        -MAX_SPEED <= v <= MAX_SPEED,
    ensures
        -MAX_SPEED <= decayed(v) <= MAX_SPEED,
        -MAX_SPEED <= input_axis_vertical(v, held_a, held_b) <= MAX_SPEED,
        -MAX_SPEED <= input_axis_horizontal(v, held_a, held_b) <= MAX_SPEED,
{
}

} // verus!
