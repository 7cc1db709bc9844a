//! Wall and corner reflection, goal detection and the match judge, on
//! concrete states.
use rustball::boundary::{reflect_at_corners, reflect_at_edges};
use rustball::entity::{Entity, Role, Velocity};
use rustball::score::DisplayText;
use rustball::sim::Simulation;

fn body(role: Role, x: i128, y: i128, vx: i128, vy: i128) -> Entity {
    let mut e = Entity::spawn(role, x, y);
    e.vel = Velocity { x: vx, y: vy };
    e
}

#[test]
fn corner_post_reverses_both_components() {
    // centred exactly on the reach of the post at (-512, 100)
    let mut e = body(Role::Ball, -50200, 10000, 120, -30);
    reflect_at_corners(&mut e);
    assert_eq!(e.vel, Velocity { x: -120, y: 30 });
    assert_eq!(e.pos.x, -50200);
    assert_eq!(e.pos.y, 10000);
}

#[test]
fn far_from_posts_nothing_reflects() {
    let mut e = body(Role::Ball, 0, 0, 120, -30);
    reflect_at_corners(&mut e);
    assert_eq!(e.vel, Velocity { x: 120, y: -30 });
}

#[test]
fn lower_right_post_reverses_too() {
    let mut e = body(Role::BluePaddle, 49000, -10000, -10, 40);
    // distance 2200 to the post at (512, -100), within 2500 + 1000
    reflect_at_corners(&mut e);
    assert_eq!(e.vel, Velocity { x: 10, y: -40 });
}

#[test]
fn ball_passes_through_goal_gap() {
    let mut e = body(Role::Ball, 51000, 0, 200, 0);
    reflect_at_edges(&mut e);
    assert_eq!(e.vel, Velocity { x: 200, y: 0 });
}

#[test]
fn paddle_bounces_inside_goal_gap() {
    let mut e = body(Role::RedPaddle, 50000, 0, 200, 0);
    reflect_at_edges(&mut e);
    assert_eq!(e.vel, Velocity { x: -200, y: 0 });
}

#[test]
fn ball_bounces_off_side_wall_outside_gap() {
    let mut e = body(Role::Ball, 51000, 20000, 200, 10);
    reflect_at_edges(&mut e);
    assert_eq!(e.vel, Velocity { x: -200, y: 10 });
}

#[test]
fn ball_bounces_off_top_wall() {
    let mut e = body(Role::Ball, 0, 37500, 10, 150);
    reflect_at_edges(&mut e);
    assert_eq!(e.vel, Velocity { x: 10, y: -150 });
}

#[test]
fn ball_bounces_off_bottom_wall() {
    let mut e = body(Role::Ball, 0, -37500, 10, -150);
    reflect_at_edges(&mut e);
    assert_eq!(e.vel, Velocity { x: 10, y: 150 });
}

#[test]
fn goal_for_red_resets_the_round() {
    let mut sim = Simulation::new();
    sim.ball.pos.x = 51300;
    sim.ball.vel = Velocity { x: 250, y: 10 };
    sim.red.pos.x = -1000;
    sim.red.vel = Velocity { x: 40, y: 0 };
    sim.run_judge();
    assert_eq!(sim.score.red, 1);
    assert_eq!(sim.score.blue, 0);
    assert_eq!(sim.ball.pos.x, 0);
    assert_eq!(sim.ball.pos.y, 0);
    assert_eq!(sim.ball.vel, Velocity { x: 0, y: 0 });
    assert_eq!(sim.red.pos.x, -20000);
    assert_eq!(sim.red.pos.y, 0);
    assert_eq!(sim.red.vel, Velocity { x: 0, y: 0 });
    assert_eq!(sim.blue.pos.x, 20000);
    assert_eq!(sim.display, DisplayText::Score { red: 1, blue: 0 });
}

#[test]
fn just_short_of_the_line_is_no_goal() {
    let mut sim = Simulation::new();
    sim.ball.pos.x = 51190;
    sim.run_judge();
    assert_eq!(sim.score.red, 0);
    assert_eq!(sim.score.blue, 0);
    assert_eq!(sim.ball.pos.x, 51190);
    assert_eq!(sim.display, DisplayText::Score { red: 0, blue: 0 });
}

#[test]
fn goal_for_blue_on_the_left_side() {
    let mut sim = Simulation::new();
    sim.ball.pos.x = -51300;
    sim.run_judge();
    assert_eq!(sim.score.red, 0);
    assert_eq!(sim.score.blue, 1);
    assert_eq!(sim.display, DisplayText::Score { red: 0, blue: 1 });
}

#[test]
fn red_at_threshold_ends_the_match_once() {
    let mut sim = Simulation::new();
    sim.score.red = 3;
    sim.run_judge();
    assert_eq!(sim.score.red, 0);
    assert_eq!(sim.score.blue, 0);
    assert_eq!(sim.display, DisplayText::RedWins);
    // a second run finds nothing to judge: the message is not produced again
    let before = sim;
    sim.run_judge();
    assert_eq!(sim, before);
    assert_eq!(sim.display, DisplayText::RedWins);
}

#[test]
fn blue_at_threshold_ends_the_match() {
    let mut sim = Simulation::new();
    sim.score.blue = 3;
    sim.run_judge();
    assert_eq!(sim.score.red, 0);
    assert_eq!(sim.score.blue, 0);
    assert_eq!(sim.display, DisplayText::BlueWins);
}

#[test]
fn third_goal_wins_in_the_same_tick() {
    let mut sim = Simulation::new();
    sim.score.red = 2;
    sim.ball.pos.x = 51300;
    sim.run_judge();
    // the goal makes it 3 and the judge immediately closes the match
    assert_eq!(sim.score.red, 0);
    assert_eq!(sim.score.blue, 0);
    assert_eq!(sim.display, DisplayText::RedWins);
}
