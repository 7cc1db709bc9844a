//! Damping, input mapping and movement, on concrete values.
use rustball::entity::{Entity, Role, Velocity};
use rustball::motion::{apply_held_keys, damp_velocity, decay_component, integrate, PaddleInput};

fn keys(up: bool, down: bool, left: bool, right: bool) -> PaddleInput {
    PaddleInput { up, down, left, right, shoot: false }
}

#[test]
fn damping_shrinks_positive_component() {
    let mut v = Velocity { x: 300, y: 0 };
    damp_velocity(&mut v);
    assert_eq!(v.x, 295);
    assert_eq!(v.y, 0);
}

#[test]
fn damping_shrinks_negative_component() {
    let mut v = Velocity { x: 0, y: -300 };
    damp_velocity(&mut v);
    assert_eq!(v.y, -295);
}

#[test]
fn damping_small_component_crosses_zero() {
    // 0.03 units per tick loses 0.05 and lands just past zero: the
    // overshoot the game keeps instead of clamping to exactly zero.
    let mut v = Velocity { x: 3, y: 0 };
    damp_velocity(&mut v);
    assert_eq!(v.x, -2);
    damp_velocity(&mut v);
    assert_eq!(v.x, 3);
}

#[test]
fn damping_zero_stays_zero() {
    let mut v = Velocity { x: 0, y: 0 };
    damp_velocity(&mut v);
    assert_eq!(v, Velocity { x: 0, y: 0 });
}

#[test]
fn damping_converges_within_one_step_per_multiple() {
    // 3.0 units per tick is 60 decay steps from zero.
    let mut v = Velocity { x: 300, y: -300 };
    for _ in 0..60 {
        damp_velocity(&mut v);
    }
    assert_eq!(v, Velocity { x: 0, y: 0 });
    damp_velocity(&mut v);
    assert_eq!(v, Velocity { x: 0, y: 0 });
}

#[test]
fn damping_pulls_kicked_speed_back_under_cap() {
    let mut x: i128 = 500;
    for _ in 0..40 {
        x = decay_component(x);
    }
    assert_eq!(x, 300);
    assert!(x <= 300);
}

#[test]
fn held_key_accelerates_and_caps_at_max_speed() {
    let mut v = Velocity { x: 0, y: 0 };
    for tick in 1..=40i128 {
        apply_held_keys(&mut v, keys(false, false, false, true));
        let expected = if 10 * tick > 300 { 300 } else { 10 * tick };
        assert_eq!(v.x, expected);
    }
    assert_eq!(v.x, 300);
}

#[test]
fn held_key_negative_caps_at_minus_max_speed() {
    let mut v = Velocity { x: 0, y: -295 };
    apply_held_keys(&mut v, keys(false, true, false, false));
    assert_eq!(v.y, -300);
    apply_held_keys(&mut v, keys(false, true, false, false));
    assert_eq!(v.y, -300);
}

#[test]
fn up_key_wins_over_down_key() {
    let mut v = Velocity { x: 0, y: 0 };
    apply_held_keys(&mut v, keys(true, true, false, false));
    assert_eq!(v.y, 10);
}

#[test]
fn right_key_wins_over_left_key() {
    let mut v = Velocity { x: 0, y: 0 };
    apply_held_keys(&mut v, keys(false, false, true, true));
    assert_eq!(v.x, 10);
}

#[test]
fn released_keys_decay_velocity() {
    let mut v = Velocity { x: 300, y: -120 };
    apply_held_keys(&mut v, keys(false, false, false, false));
    assert_eq!(v.x, 295);
    assert_eq!(v.y, -115);
}

#[test]
fn movement_adds_velocity_to_position() {
    let mut e = Entity::spawn(Role::Ball, 1000, -2000);
    e.vel = Velocity { x: 250, y: -40 };
    integrate(&mut e);
    assert_eq!(e.pos.x, 1250);
    assert_eq!(e.pos.y, -2040);
    assert_eq!(e.vel, Velocity { x: 250, y: -40 });
}
