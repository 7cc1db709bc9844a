//! Collision response and the shoot kick, on concrete pairs.
use rustball::collision::{collide_paddle_ball, collide_paddles, handle_collision};
use rustball::entity::{Entity, Role, Velocity};

fn paddle(role: Role, x: i128, y: i128, vx: i128, vy: i128) -> Entity {
    let mut e = Entity::spawn(role, x, y);
    e.vel = Velocity { x: vx, y: vy };
    e
}

#[test]
fn positional_correction_is_equal_and_opposite() {
    let mut red = paddle(Role::RedPaddle, 0, 0, 0, 0);
    let mut blue = paddle(Role::BluePaddle, 3000, 0, 0, 0);
    collide_paddles(&mut red, &mut blue);
    // mtd = (5000 - 3000) / 3000 of the centre line; each centre moves
    // half of it, in opposite directions.
    assert_eq!(red.pos.x, -1000);
    assert_eq!(blue.pos.x, 4000);
    assert_eq!(red.pos.x - 0, -(blue.pos.x - 3000));
    assert_eq!(red.pos.y, 0);
    assert_eq!(blue.pos.y, 0);
    assert_eq!(red.vel, Velocity { x: 0, y: 0 });
    assert_eq!(blue.vel, Velocity { x: 0, y: 0 });
}

#[test]
fn separating_pair_keeps_velocities() {
    let mut red = paddle(Role::RedPaddle, 0, 0, -100, 30);
    let mut blue = paddle(Role::BluePaddle, 3000, 0, 100, -40);
    handle_collision(&mut red, &mut blue);
    assert_eq!(red.vel, Velocity { x: -100, y: 30 });
    assert_eq!(blue.vel, Velocity { x: 100, y: -40 });
    // the overlap is still resolved
    assert_eq!(red.pos.x, -1000);
    assert_eq!(blue.pos.x, 4000);
}

#[test]
fn approaching_pair_exchanges_impulse() {
    let mut red = paddle(Role::RedPaddle, 0, 0, 100, 0);
    let mut blue = paddle(Role::BluePaddle, 3000, 0, 0, 0);
    handle_collision(&mut red, &mut blue);
    // restitution 1.5, equal masses: impulse 75 along the centre line
    assert_eq!(red.vel, Velocity { x: 25, y: 0 });
    assert_eq!(blue.vel, Velocity { x: 75, y: 0 });
}

#[test]
fn coincident_centres_are_left_alone() {
    let mut red = paddle(Role::RedPaddle, 500, 500, 10, 20);
    let mut blue = paddle(Role::BluePaddle, 500, 500, -10, 5);
    collide_paddles(&mut red, &mut blue);
    assert_eq!(red.pos.x, 500);
    assert_eq!(red.pos.y, 500);
    assert_eq!(blue.pos.x, 500);
    assert_eq!(blue.pos.y, 500);
    assert_eq!(red.vel, Velocity { x: 10, y: 20 });
    assert_eq!(blue.vel, Velocity { x: -10, y: 5 });
}

#[test]
fn distant_pair_is_untouched() {
    let mut red = paddle(Role::RedPaddle, -20000, 0, 50, 0);
    let mut blue = paddle(Role::BluePaddle, 20000, 0, -50, 0);
    collide_paddles(&mut red, &mut blue);
    assert_eq!(red.pos.x, -20000);
    assert_eq!(blue.pos.x, 20000);
    assert_eq!(red.vel.x, 50);
    assert_eq!(blue.vel.x, -50);
}

#[test]
fn shoot_kick_sends_ball_away_from_paddle() {
    let mut p = paddle(Role::RedPaddle, 0, 0, 0, 0);
    let mut ball = paddle(Role::Ball, 2000, 0, 0, 0);
    collide_paddle_ball(&mut p, &mut ball, true);
    // the kick adds 5.0 units per tick along the paddle-to-ball axis,
    // well beyond the 3.0 cap; the pair then separates positionally
    assert_eq!(ball.vel, Velocity { x: 500, y: 0 });
    assert_eq!(p.pos.x, -750);
    assert_eq!(ball.pos.x, 2750);
}

#[test]
fn no_kick_without_shoot_key() {
    let mut p = paddle(Role::RedPaddle, 0, 0, 0, 0);
    let mut ball = paddle(Role::Ball, 2000, 0, 0, 0);
    collide_paddle_ball(&mut p, &mut ball, false);
    assert_eq!(ball.vel, Velocity { x: 0, y: 0 });
    assert_eq!(p.pos.x, -750);
    assert_eq!(ball.pos.x, 2750);
}

#[test]
fn moving_paddle_imparts_velocity_to_resting_ball() {
    let mut p = paddle(Role::RedPaddle, 0, 0, 100, 0);
    let mut ball = paddle(Role::Ball, 3000, 0, 0, 0);
    collide_paddle_ball(&mut p, &mut ball, false);
    assert_eq!(ball.vel.x, 75);
    assert_eq!(p.vel.x, 25);
    assert!(ball.vel.x > 0);
}

#[test]
fn paddle_and_ball_apart_are_untouched() {
    let mut p = paddle(Role::RedPaddle, 0, 0, 10, 0);
    let mut ball = paddle(Role::Ball, 10000, 0, 0, 0);
    collide_paddle_ball(&mut p, &mut ball, true);
    assert_eq!(p.pos.x, 0);
    assert_eq!(ball.pos.x, 10000);
    assert_eq!(ball.vel, Velocity { x: 0, y: 0 });
}
