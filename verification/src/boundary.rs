//! Reflection at the pitch edges and at the four goal-mouth corner
//! posts.
//!
//! A body touching a corner post has both velocity components negated:
//! a full reversal, not an axis-aligned bounce.  A body reaching a
//! side wall has its horizontal velocity flipped unless it is the ball
//! inside the goal gap, which passes through; the vertical check at
//! the top and bottom walls shares the same goal-gap-or-paddle
//! condition, an odd coupling kept deliberately because the game
//! behaves that way.
use vstd::prelude::*;

verus! {

use crate::entity::{Entity, Vec2, Velocity};
use crate::num::lemma_mul_bounds;
use crate::{
    CORNER_DOWN_HEIGHT, CORNER_RADIUS, CORNER_UP_HEIGHT, HALF_HEIGHT, HALF_WIDTH, PASS_BOUND,
    PLAYER_RADIUS,
};

/// Whether a centre is within `reach` of the post at (cx, cy),
/// compared on squared distances.
pub open spec fn near_post(pos: Vec2, cx: int, cy: int, reach: int) -> bool {
    (pos.x - cx) * (pos.x - cx) + (pos.y - cy) * (pos.y - cy) <= reach * reach
}

/// A velocity reversed in both components.
pub open spec fn negated(v: Velocity) -> Velocity {
    Velocity { x: (-v.x) as i128, y: (-v.y) as i128 }
}

/// The velocity after the four corner posts are checked in turn, each
/// reversing the velocity when the body touches it.
pub open spec fn corners_outcome(e: Entity) -> Velocity {
    let reach = e.radius + CORNER_RADIUS;
    let v1 = if near_post(e.pos, -HALF_WIDTH as int, CORNER_UP_HEIGHT as int, reach) {
        negated(e.vel)
    } else {
        e.vel
    };
    let v2 = if near_post(e.pos, HALF_WIDTH as int, CORNER_UP_HEIGHT as int, reach) {
        negated(v1)
    } else {
        v1
    };
    let v3 = if near_post(e.pos, HALF_WIDTH as int, CORNER_DOWN_HEIGHT as int, reach) {
        negated(v2)
    } else {
        v2
    };
    if near_post(e.pos, -HALF_WIDTH as int, CORNER_DOWN_HEIGHT as int, reach) {
        negated(v3)
    } else {
        v3
    }
}

/// The condition both wall checks share: outside the goal gap, or a
/// paddle, which never passes through a wall.
pub open spec fn gap_or_paddle(e: Entity) -> bool {
    e.pos.y >= CORNER_UP_HEIGHT || e.pos.y <= CORNER_DOWN_HEIGHT || e.radius == PLAYER_RADIUS
}

/// Whether the body's horizontal extent reaches a side wall.
pub open spec fn at_side_wall(e: Entity) -> bool {
    e.pos.x + e.radius >= HALF_WIDTH || e.pos.x - e.radius <= -HALF_WIDTH
}

/// Whether the body's vertical extent reaches the top or bottom wall.
pub open spec fn at_top_bottom_wall(e: Entity) -> bool {
    e.pos.y + e.radius >= HALF_HEIGHT || e.pos.y - e.radius <= -HALF_HEIGHT
}

/// The velocity after the wall checks.
pub open spec fn edges_outcome(e: Entity) -> Velocity {
    let vx = if at_side_wall(e) && gap_or_paddle(e) {
        (-e.vel.x) as i128
    } else {
        e.vel.x
    };
    let vy = if at_top_bottom_wall(e) && gap_or_paddle(e) {
        (-e.vel.y) as i128
    } else {
        e.vel.y
    };
    Velocity { x: vx, y: vy }
}

/// Whether the centre at (px, py) is within `reach` of the post at
/// (cx, cy).
fn near_post_check(px: i128, py: i128, cx: i128, cy: i128, reach: i128) -> (r: bool)
    requires
        -PASS_BOUND <= px <= PASS_BOUND,
        -PASS_BOUND <= py <= PASS_BOUND,
        -HALF_WIDTH <= cx <= HALF_WIDTH,
        -HALF_WIDTH <= cy <= HALF_WIDTH,
        0 < reach <= PLAYER_RADIUS + CORNER_RADIUS,
    ensures
        r == near_post(Vec2 { x: px, y: py }, cx as int, cy as int, reach as int),
{
    let dx = px - cx;
    let dy = py - cy;
    proof {
        lemma_mul_bounds(dx as int, dx as int, 2 * PASS_BOUND as int, 2 * PASS_BOUND as int);
        lemma_mul_bounds(dy as int, dy as int, 2 * PASS_BOUND as int, 2 * PASS_BOUND as int);
        lemma_mul_bounds(reach as int, reach as int, 3500, 3500);
        assert(0 <= dx * dx) by (nonlinear_arith);
        assert(0 <= dy * dy) by (nonlinear_arith);
    }
    dx * dx + dy * dy <= reach * reach
}

/// Reverses the velocity once for each goal-mouth corner post the body
/// touches.
pub fn reflect_at_corners(e: &mut Entity)
    requires
        old(e).bounded(PASS_BOUND as int),
        0 < old(e).radius <= PLAYER_RADIUS,
    ensures
        final(e).vel == corners_outcome(*old(e)),
        final(e).pos == old(e).pos,
        final(e).radius == old(e).radius,
        final(e).role == old(e).role,
{
    let reach = e.radius + CORNER_RADIUS;
    if near_post_check(e.pos.x, e.pos.y, -HALF_WIDTH, CORNER_UP_HEIGHT, reach) {
        e.vel.x = -e.vel.x;
        e.vel.y = -e.vel.y;
    }
    if near_post_check(e.pos.x, e.pos.y, HALF_WIDTH, CORNER_UP_HEIGHT, reach) {
        e.vel.x = -e.vel.x;
        e.vel.y = -e.vel.y;
    }
    if near_post_check(e.pos.x, e.pos.y, HALF_WIDTH, CORNER_DOWN_HEIGHT, reach) {
        e.vel.x = -e.vel.x;
        e.vel.y = -e.vel.y;
    }
    if near_post_check(e.pos.x, e.pos.y, -HALF_WIDTH, CORNER_DOWN_HEIGHT, reach) {
        e.vel.x = -e.vel.x;
        e.vel.y = -e.vel.y;
    }
}

/// Flips the velocity components of a body that reaches a wall,
/// except the ball inside the goal gap.
pub fn reflect_at_edges(e: &mut Entity)
    requires
        old(e).bounded(PASS_BOUND as int),
        0 < old(e).radius <= PLAYER_RADIUS,
    ensures
        final(e).vel == edges_outcome(*old(e)),
        final(e).pos == old(e).pos,
        final(e).radius == old(e).radius,
        final(e).role == old(e).role,
{
    let through = e.pos.y >= CORNER_UP_HEIGHT || e.pos.y <= CORNER_DOWN_HEIGHT || e.radius
        == PLAYER_RADIUS;
    if (e.pos.x + e.radius >= HALF_WIDTH || e.pos.x - e.radius <= -HALF_WIDTH) && through {
        e.vel.x = -e.vel.x;
    }
    if (e.pos.y + e.radius >= HALF_HEIGHT || e.pos.y - e.radius <= -HALF_HEIGHT) && through {
        e.vel.y = -e.vel.y;
    }
}

} // verus!
