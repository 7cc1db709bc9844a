//! Circle-circle collision response between any two of the three
//! bodies, and the shoot kick a paddle can give the ball on contact.
//!
//! A colliding pair is first separated: each centre moves by half the
//! minimum translation distance along the centre line.  When the pair
//! is approaching (the relative velocity points along the line from the
//! second body to the first), an impulse with restitution 1.5 and equal
//! masses is exchanged; a separating pair keeps its velocities.
//!
//! Two centres that coincide exactly give the collision no direction;
//! that degenerate contact is left unresolved on purpose, as a
//! documented boundary behaviour, instead of dividing by zero.
use vstd::prelude::*;

verus! {

use crate::entity::{Entity, Vec2, Velocity};
use crate::num::{
    abs_int, div_trunc, div_tz, isqrt, lemma_div_tz_bounded, lemma_div_tz_shrinks,
    lemma_dot_scaled_bound, lemma_mul_bounds, lemma_sqrt_floor_bounds, sqrt_floor,
};
use crate::{BALL_RADIUS, COLLIDE_BOUND, KICK_SPEED, PASS_BOUND, PLAYER_RADIUS};

/// Squared distance between two points.
pub open spec fn dist_sq(a: Vec2, b: Vec2) -> int {
    (a.x - b.x) * (a.x - b.x) + (a.y - b.y) * (a.y - b.y)
}

/// Two entities collide when their centres are closer than the sum of
/// their radii.
pub open spec fn overlapping(a: Entity, b: Entity) -> bool {
    dist_sq(a.pos, b.pos) < (a.radius + b.radius) * (a.radius + b.radius)
}

/// Relative velocity of a toward b, projected (unnormalised) on the
/// centre line from b to a.  Positive means the pair is separating.
pub open spec fn vel_dot_delta(a: Entity, b: Entity) -> int {
    (a.vel.x - b.vel.x) * (a.pos.x - b.pos.x) + (a.vel.y - b.vel.y) * (a.pos.y - b.pos.y)
}

/// What one collision response leaves behind: the pair after the
/// half-and-half positional correction and, for an approaching pair,
/// the impulse exchange.
#[verifier::opaque]
pub open spec fn collision_outcome(a: Entity, b: Entity) -> (Entity, Entity) {
    let dx = a.pos.x - b.pos.x;
    let dy = a.pos.y - b.pos.y;
    let d2 = dx * dx + dy * dy;
    if d2 == 0 {
        (a, b)
    } else {
        let sum = a.radius + b.radius;
        let d = sqrt_floor(d2 as nat) as int;
        let half_x = div_tz(div_tz(dx * (sum - d), d), 2);
        let half_y = div_tz(div_tz(dy * (sum - d), d), 2);
        let pa = Vec2 { x: (a.pos.x + half_x) as i128, y: (a.pos.y + half_y) as i128 };
        let pb = Vec2 { x: (b.pos.x - half_x) as i128, y: (b.pos.y - half_y) as i128 };
        let vn = vel_dot_delta(a, b);
        if vn > 0 {
            (Entity { pos: pa, ..a }, Entity { pos: pb, ..b })
        } else {
            let ix = div_tz(-3 * (dx * vn), 4 * d2);
            let iy = div_tz(-3 * (dy * vn), 4 * d2);
            let va = Velocity { x: (a.vel.x + ix) as i128, y: (a.vel.y + iy) as i128 };
            let vb = Velocity { x: (b.vel.x - ix) as i128, y: (b.vel.y - iy) as i128 };
            (Entity { pos: pa, vel: va, ..a }, Entity { pos: pb, vel: vb, ..b })
        }
    }
}

/// How far one collision response can move things: each centre moves
/// less than the squared radius sum, and each velocity component grows
/// at most fourfold (the impulse of an approaching pair is at most
/// three times the larger velocity bound).
pub proof fn lemma_collision_outcome_bounds(a: Entity, b: Entity, p: int, v: int)
    requires
        overlapping(a, b),
        0 < a.radius <= PLAYER_RADIUS,
        0 < b.radius <= PLAYER_RADIUS,
        a.pos_bounded(p),
        b.pos_bounded(p),
        a.vel_bounded(v),
        b.vel_bounded(v),
        0 <= p,
        0 <= v,
    ensures
        collision_outcome(a, b).0.pos_bounded(p + 25_000_000),
        collision_outcome(a, b).1.pos_bounded(p + 25_000_000),
        collision_outcome(a, b).0.vel_bounded(4 * v),
        collision_outcome(a, b).1.vel_bounded(4 * v),
        collision_outcome(a, b).0.radius == a.radius,
        collision_outcome(a, b).1.radius == b.radius,
        collision_outcome(a, b).0.role == a.role,
        collision_outcome(a, b).1.role == b.role,
{
    reveal(collision_outcome);
    let dx = a.pos.x - b.pos.x;
    let dy = a.pos.y - b.pos.y;
    let d2 = dx * dx + dy * dy;
    let sum = a.radius + b.radius;
    assert(0 <= dx * dx) by (nonlinear_arith);
    assert(0 <= dy * dy) by (nonlinear_arith);
    assert(sum * sum <= 25_000_000) by (nonlinear_arith)
        requires
            0 < sum <= 5000,
    ;
    if d2 != 0 {
        assert(-sum < dx < sum && -sum < dy < sum) by (nonlinear_arith)
            requires
                dx * dx + dy * dy < sum * sum && 0 < sum && 0 <= dx * dx && 0 <= dy * dy,
        ;
        let d = sqrt_floor(d2 as nat) as int;
        lemma_sqrt_floor_bounds(d2 as nat);
        assert(d >= 1) by (nonlinear_arith)
            requires
                (d + 1) * (d + 1) > d2 && d2 >= 1 && d >= 0,
        ;
        assert(d < sum) by (nonlinear_arith)
            requires
                d * d <= d2 && d2 < sum * sum && 0 <= d && 0 < sum,
        ;
        lemma_mul_bounds(dx, sum - d, sum, sum);
        lemma_mul_bounds(dy, sum - d, sum, sum);
        lemma_div_tz_shrinks(dx * (sum - d), d);
        lemma_div_tz_shrinks(dy * (sum - d), d);
        lemma_div_tz_shrinks(div_tz(dx * (sum - d), d), 2);
        lemma_div_tz_shrinks(div_tz(dy * (sum - d), d), 2);
        let vdx = a.vel.x - b.vel.x;
        let vdy = a.vel.y - b.vel.y;
        let vn = vdx * dx + vdy * dy;
        if vn <= 0 {
            lemma_dot_scaled_bound(dx, dy, vdx, vdy, 2 * v);
            lemma_dot_scaled_bound(dy, dx, vdy, vdx, 2 * v);
            assert(vn == vdx * dx + vdy * dy);
            assert(dy * (vdy * dy + vdx * dx) == dy * vn) by (nonlinear_arith)
                requires
                    vn == vdx * dx + vdy * dy,
            ;
            assert(dy * dy + dx * dx == d2);
            // 2 * |dx * vn| <= 3 * (2v * d2), so |-3 * (dx * vn)| <= 9 * (v * d2)
            assert(3 * ((2 * v) * (dx * dx + dy * dy)) == 6 * (v * d2)) by (nonlinear_arith)
                requires
                    d2 == dx * dx + dy * dy,
            ;
            assert((3 * v) * (4 * d2) == 12 * (v * d2)) by (nonlinear_arith);
            assert(0 <= v * d2) by (nonlinear_arith)
                requires
                    0 <= v && 0 <= d2,
            ;
            lemma_div_tz_bounded(-3 * (dx * vn), 4 * d2, 3 * v);
            lemma_div_tz_bounded(-3 * (dy * vn), 4 * d2, 3 * v);
        }
    }
}

/// Resolves one collision in place.  The positional corrections of the
/// two bodies are exactly opposite, and a separating pair keeps both
/// velocities.
pub fn handle_collision(a: &mut Entity, b: &mut Entity)
    requires
        old(a).bounded(COLLIDE_BOUND as int),
        old(b).bounded(COLLIDE_BOUND as int),
        0 < old(a).radius <= PLAYER_RADIUS,
        0 < old(b).radius <= PLAYER_RADIUS,
        overlapping(*old(a), *old(b)),
    ensures
        *final(a) == collision_outcome(*old(a), *old(b)).0,
        *final(b) == collision_outcome(*old(a), *old(b)).1,
        final(a).pos.x - old(a).pos.x == -(final(b).pos.x - old(b).pos.x),
        final(a).pos.y - old(a).pos.y == -(final(b).pos.y - old(b).pos.y),
        vel_dot_delta(*old(a), *old(b)) > 0 ==> final(a).vel == old(a).vel,
        vel_dot_delta(*old(a), *old(b)) > 0 ==> final(b).vel == old(b).vel,
{
    let sum = a.radius + b.radius;
    let dx = a.pos.x - b.pos.x;
    let dy = a.pos.y - b.pos.y;
    proof {
        reveal(collision_outcome);
        assert(sum * sum <= 25_000_000) by (nonlinear_arith)
            requires
                0 < sum <= 5000,
        ;
        assert(0 <= dx * dx) by (nonlinear_arith);
        assert(0 <= dy * dy) by (nonlinear_arith);
    }
    let d2 = dx * dx + dy * dy;
    if d2 == 0 {
        return ;
    }
    proof {
        assert(-sum < dx < sum && -sum < dy < sum) by (nonlinear_arith)
            requires
                dx * dx + dy * dy < sum * sum && 0 < sum && 0 <= dx * dx && 0 <= dy * dy,
        ;
    }
    let d = isqrt(d2 as u128) as i128;
    proof {
        assert(d >= 1) by (nonlinear_arith)
            requires
                (d + 1) * (d + 1) > d2 && d2 >= 1 && d >= 0,
        ;
        assert(d < sum) by (nonlinear_arith)
            requires
                d * d <= d2 && d2 < sum * sum && 0 <= d && 0 < sum,
        ;
        lemma_mul_bounds(dx as int, (sum - d) as int, sum as int, sum as int);
        lemma_mul_bounds(dy as int, (sum - d) as int, sum as int, sum as int);
        lemma_div_tz_shrinks(dx * (sum - d), d as int);
        lemma_div_tz_shrinks(dy * (sum - d), d as int);
    }
    let mtd_x = div_trunc(dx * (sum - d), d);
    let mtd_y = div_trunc(dy * (sum - d), d);
    proof {
        lemma_div_tz_shrinks(mtd_x as int, 2);
        lemma_div_tz_shrinks(mtd_y as int, 2);
    }
    let half_x = div_trunc(mtd_x, 2);
    let half_y = div_trunc(mtd_y, 2);
    a.pos.x = a.pos.x + half_x;
    a.pos.y = a.pos.y + half_y;
    b.pos.x = b.pos.x - half_x;
    b.pos.y = b.pos.y - half_y;
    let vdx = a.vel.x - b.vel.x;
    let vdy = a.vel.y - b.vel.y;
    proof {
        lemma_mul_bounds(vdx as int, dx as int, 2 * COLLIDE_BOUND as int, 5000);
        lemma_mul_bounds(vdy as int, dy as int, 2 * COLLIDE_BOUND as int, 5000);
        assert((2 * COLLIDE_BOUND as int) * 5000 == 200_000_000_000_000_000);
    }
    let vn = vdx * dx + vdy * dy;
    if vn > 0 {
        return ;
    }
    proof {
        lemma_mul_bounds(dx as int, vn as int, 5000, abs_int(vn as int));
        lemma_mul_bounds(dy as int, vn as int, 5000, abs_int(vn as int));
        assert(5000 * abs_int(vn as int) <= 5000 * 400_000_000_000_000_000);
        lemma_div_tz_shrinks(-3 * (dx * vn), 4 * d2 as int);
        lemma_div_tz_shrinks(-3 * (dy * vn), 4 * d2 as int);
    }
    let ix = div_trunc(-3 * (dx * vn), 4 * d2);
    let iy = div_trunc(-3 * (dy * vn), 4 * d2);
    a.vel.x = a.vel.x + ix;
    a.vel.y = a.vel.y + iy;
    b.vel.x = b.vel.x - ix;
    b.vel.y = b.vel.y - iy;
}

/// The ball after a shoot kick: KICK_SPEED along the paddle-to-ball
/// axis is added to its velocity, deliberately unclamped, so the ball
/// can briefly exceed MAX_SPEED until damping pulls it back.
#[verifier::opaque]
pub open spec fn kicked_ball(paddle: Entity, ball: Entity) -> Entity
    recommends
        dist_sq(paddle.pos, ball.pos) > 0,
{
    let dx = paddle.pos.x - ball.pos.x;
    let dy = paddle.pos.y - ball.pos.y;
    let d = sqrt_floor(dist_sq(paddle.pos, ball.pos) as nat) as int;
    let vel = Velocity {
        x: (ball.vel.x + div_tz(-KICK_SPEED * dx, d)) as i128,
        y: (ball.vel.y + div_tz(-KICK_SPEED * dy, d)) as i128,
    };
    Entity { vel, ..ball }
}

/// One paddle-ball pass: nothing happens unless the two overlap with
/// distinct centres; then the ball is kicked first if the paddle's
/// shoot key is held, and the pair is resolved.
#[verifier::opaque]
pub open spec fn paddle_ball_outcome(paddle: Entity, ball: Entity, shoot: bool) -> (
    Entity,
    Entity,
) {
    if !overlapping(paddle, ball) || dist_sq(paddle.pos, ball.pos) == 0 {
        (paddle, ball)
    } else {
        let b1 = if shoot {
            kicked_ball(paddle, ball)
        } else {
            ball
        };
        collision_outcome(paddle, b1)
    }
}

/// One paddle-paddle pass: the pair is resolved when the paddles
/// overlap.
#[verifier::opaque]
pub open spec fn paddles_outcome(red: Entity, blue: Entity) -> (Entity, Entity) {
    if overlapping(red, blue) {
        collision_outcome(red, blue)
    } else {
        (red, blue)
    }
}

/// Detects and resolves a paddle-ball collision, kicking the ball
/// first when the shoot key is held at the moment of contact.
pub fn collide_paddle_ball(paddle: &mut Entity, ball: &mut Entity, shoot: bool)
    requires
        old(paddle).bounded(PASS_BOUND as int),
        old(ball).bounded(PASS_BOUND as int),
        old(paddle).radius == PLAYER_RADIUS,
        old(ball).radius == BALL_RADIUS,
    ensures
        *final(paddle) == paddle_ball_outcome(*old(paddle), *old(ball), shoot).0,
        *final(ball) == paddle_ball_outcome(*old(paddle), *old(ball), shoot).1,
{
    let dx = paddle.pos.x - ball.pos.x;
    let dy = paddle.pos.y - ball.pos.y;
    proof {
        reveal(paddle_ball_outcome);
        reveal(kicked_ball);
        lemma_mul_bounds(dx as int, dx as int, 2 * PASS_BOUND as int, 2 * PASS_BOUND as int);
        lemma_mul_bounds(dy as int, dy as int, 2 * PASS_BOUND as int, 2 * PASS_BOUND as int);
        assert(0 <= dx * dx) by (nonlinear_arith);
        assert(0 <= dy * dy) by (nonlinear_arith);
    }
    let d2 = dx * dx + dy * dy;
    let sum = PLAYER_RADIUS + BALL_RADIUS;
    if d2 > 0 && d2 < sum * sum {
        if shoot {
            let d = isqrt(d2 as u128) as i128;
            proof {
                assert(d >= 1) by (nonlinear_arith)
                    requires
                        (d + 1) * (d + 1) > d2 && d2 >= 1 && d >= 0,
                ;
                assert(-(d + 1) < dx < d + 1 && -(d + 1) < dy < d + 1) by (nonlinear_arith)
                    requires
                        dx * dx + dy * dy < (d + 1) * (d + 1) && 0 <= d && 0 <= dx * dx && 0 <= dy
                            * dy,
                ;
                assert(d < 3500) by (nonlinear_arith)
                    requires
                        d * d <= d2 && d2 < 12_250_000 && 0 <= d,
                ;
                lemma_mul_bounds(-KICK_SPEED as int, dx as int, KICK_SPEED as int, d as int);
                lemma_mul_bounds(-KICK_SPEED as int, dy as int, KICK_SPEED as int, d as int);
                assert((KICK_SPEED as int) * (d as int) == (d as int) * (KICK_SPEED as int)) by (nonlinear_arith);
                lemma_div_tz_bounded(-KICK_SPEED * dx, d as int, KICK_SPEED as int);
                lemma_div_tz_bounded(-KICK_SPEED * dy, d as int, KICK_SPEED as int);
            }
            let kick_x = div_trunc(-KICK_SPEED * dx, d);
            let kick_y = div_trunc(-KICK_SPEED * dy, d);
            ball.vel.x = ball.vel.x + kick_x;
            ball.vel.y = ball.vel.y + kick_y;
        }
        handle_collision(paddle, ball);
    }
}

/// Detects and resolves a collision between the two paddles.
pub fn collide_paddles(red: &mut Entity, blue: &mut Entity)
    requires
        old(red).bounded(PASS_BOUND as int),
        old(blue).bounded(PASS_BOUND as int),
        old(red).radius == PLAYER_RADIUS,
        old(blue).radius == PLAYER_RADIUS,
    ensures
        *final(red) == paddles_outcome(*old(red), *old(blue)).0,
        *final(blue) == paddles_outcome(*old(red), *old(blue)).1,
{
    let dx = red.pos.x - blue.pos.x;
    let dy = red.pos.y - blue.pos.y;
    proof {
        reveal(paddles_outcome);
        lemma_mul_bounds(dx as int, dx as int, 2 * PASS_BOUND as int, 2 * PASS_BOUND as int);
        lemma_mul_bounds(dy as int, dy as int, 2 * PASS_BOUND as int, 2 * PASS_BOUND as int);
        assert(0 <= dx * dx) by (nonlinear_arith);
        assert(0 <= dy * dy) by (nonlinear_arith);
    }
    let d2 = dx * dx + dy * dy;
    let sum = PLAYER_RADIUS + PLAYER_RADIUS;
    if d2 < sum * sum {
        handle_collision(red, blue);
    }
}

/// A body overtaken head-on along the x axis comes away faster: when
/// the one behind closes in at two centiunits per tick or more, the
/// impulse survives the truncation and pushes the one in front along
/// x.  (A slower approach can round to no impulse at all.)
pub proof fn lemma_head_on_pass_imparts_velocity(a: Entity, b: Entity)
    requires
        a.bounded(COLLIDE_BOUND as int),
        b.bounded(COLLIDE_BOUND as int),
        0 < a.radius <= PLAYER_RADIUS,
        0 < b.radius <= PLAYER_RADIUS,
        overlapping(a, b),
        a.pos.y == b.pos.y,
        a.pos.x < b.pos.x,
        a.vel.x - b.vel.x >= 2,
    ensures
        collision_outcome(a, b).1.vel.x > b.vel.x,
{
    reveal(collision_outcome);
    let dx = a.pos.x - b.pos.x;
    let dy = a.pos.y - b.pos.y;
    assert(dy * dy == 0) by (nonlinear_arith)
        requires
            dy == 0,
    ;
    assert(dx * dx >= 1) by (nonlinear_arith)
        requires
            dx <= -1,
    ;
    let d2 = dx * dx + dy * dy;
    let sum = a.radius + b.radius;
    assert(sum * sum <= 25_000_000) by (nonlinear_arith)
        requires
            0 < sum <= 5000,
    ;
    assert(-sum < dx < sum) by (nonlinear_arith)
        requires
            dx * dx + dy * dy < sum * sum && 0 < sum && 0 <= dx * dx && 0 <= dy * dy,
    ;
    let vdx = a.vel.x - b.vel.x;
    let vdy = a.vel.y - b.vel.y;
    assert(vdy * dy == 0) by (nonlinear_arith)
        requires
            dy == 0,
    ;
    let vn = vdx * dx + vdy * dy;
    assert(vn == vdx * dx);
    assert(vel_dot_delta(a, b) == vn);
    assert(vn <= 2 * dx) by (nonlinear_arith)
        requires
            vdx >= 2 && dx <= -1 && vn == vdx * dx,
    ;
    let num = -3 * (dx * vn);
    assert(dx * vn == vdx * (dx * dx)) by (nonlinear_arith)
        requires
            vn == vdx * dx,
    ;
    assert(vdx * (dx * dx) >= 2 * (dx * dx)) by (nonlinear_arith)
        requires
            vdx >= 2 && 0 <= dx * dx,
    ;
    assert(num <= -6 * (dx * dx));
    assert((-num) / (4 * d2) >= 1) by (nonlinear_arith)
        requires
            -num >= 4 * d2 && 4 * d2 >= 1,
    ;
    let ix = div_tz(num, 4 * d2);
    assert(ix <= -1);
    lemma_mul_bounds(vdx, dx, 2 * COLLIDE_BOUND as int, 5000);
    lemma_mul_bounds(dx, vn, 5000, abs_int(vn));
    lemma_div_tz_shrinks(num, 4 * d2);
}

/// Bounds for one paddle-ball pass: a kick adds at most KICK_SPEED per
/// component before the collision response runs.
pub proof fn lemma_paddle_ball_outcome_bounds(
    paddle: Entity,
    ball: Entity,
    shoot: bool,
    bp: int,
    bv: int,
)
    requires
        paddle.radius == PLAYER_RADIUS,
        ball.radius == BALL_RADIUS,
        paddle.pos_bounded(bp),
        ball.pos_bounded(bp),
        paddle.vel_bounded(bv),
        ball.vel_bounded(bv),
        0 <= bp,
        0 <= bv,
    ensures
        paddle_ball_outcome(paddle, ball, shoot).0.pos_bounded(bp + 25_000_000),
        paddle_ball_outcome(paddle, ball, shoot).1.pos_bounded(bp + 25_000_000),
        paddle_ball_outcome(paddle, ball, shoot).0.vel_bounded(4 * (bv + KICK_SPEED)),
        paddle_ball_outcome(paddle, ball, shoot).1.vel_bounded(4 * (bv + KICK_SPEED)),
        paddle_ball_outcome(paddle, ball, shoot).0.radius == paddle.radius,
        paddle_ball_outcome(paddle, ball, shoot).1.radius == ball.radius,
        paddle_ball_outcome(paddle, ball, shoot).0.role == paddle.role,
        paddle_ball_outcome(paddle, ball, shoot).1.role == ball.role,
{
    reveal(paddle_ball_outcome);
    reveal(kicked_ball);
    let dx = paddle.pos.x - ball.pos.x;
    let dy = paddle.pos.y - ball.pos.y;
    let d2 = dist_sq(paddle.pos, ball.pos);
    assert(0 <= dx * dx) by (nonlinear_arith);
    assert(0 <= dy * dy) by (nonlinear_arith);
    if overlapping(paddle, ball) && d2 != 0 {
        let b1 = if shoot {
            kicked_ball(paddle, ball)
        } else {
            ball
        };
        if shoot {
            let d = sqrt_floor(d2 as nat) as int;
            lemma_sqrt_floor_bounds(d2 as nat);
            assert(d >= 1) by (nonlinear_arith)
                requires
                    (d + 1) * (d + 1) > d2 && d2 >= 1 && d >= 0,
            ;
            assert(-(d + 1) < dx < d + 1 && -(d + 1) < dy < d + 1) by (nonlinear_arith)
                requires
                    dx * dx + dy * dy < (d + 1) * (d + 1) && 0 <= d && 0 <= dx * dx && 0 <= dy * dy,
            ;
            lemma_mul_bounds(-KICK_SPEED as int, dx, KICK_SPEED as int, d);
            lemma_mul_bounds(-KICK_SPEED as int, dy, KICK_SPEED as int, d);
            lemma_div_tz_bounded(-KICK_SPEED * dx, d, KICK_SPEED as int);
            lemma_div_tz_bounded(-KICK_SPEED * dy, d, KICK_SPEED as int);
        }
        assert(b1.vel_bounded(bv + KICK_SPEED));
        lemma_collision_outcome_bounds(paddle, b1, bp, bv + KICK_SPEED as int);
    }
}

/// Bounds for one paddle-paddle pass.
pub proof fn lemma_paddles_outcome_bounds(red: Entity, blue: Entity, bp: int, bv: int)
    requires
        red.radius == PLAYER_RADIUS,
        blue.radius == PLAYER_RADIUS,
        red.pos_bounded(bp),
        blue.pos_bounded(bp),
        red.vel_bounded(bv),
        blue.vel_bounded(bv),
        0 <= bp,
        0 <= bv,
    ensures
        paddles_outcome(red, blue).0.pos_bounded(bp + 25_000_000),
        paddles_outcome(red, blue).1.pos_bounded(bp + 25_000_000),
        paddles_outcome(red, blue).0.vel_bounded(4 * bv),
        paddles_outcome(red, blue).1.vel_bounded(4 * bv),
        paddles_outcome(red, blue).0.radius == red.radius,
        paddles_outcome(red, blue).1.radius == blue.radius,
        paddles_outcome(red, blue).0.role == red.role,
        paddles_outcome(red, blue).1.role == blue.role,
{
    reveal(paddles_outcome);
    if overlapping(red, blue) {
        lemma_collision_outcome_bounds(red, blue, bp, bv);
    }
}

} // verus!
