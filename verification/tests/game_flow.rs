//! Whole ticks, the menu decisions, and the helper arithmetic.
use rustball::entity::Role;
use rustball::menu::{menu_click, Background, GameState, MenuItem};
use rustball::motion::PaddleInput;
use rustball::num::{div_trunc, isqrt};
use rustball::score::{DisplayText, Score};
use rustball::sim::Simulation;

fn hold_right() -> PaddleInput {
    PaddleInput { up: false, down: false, left: false, right: true, shoot: false }
}

#[test]
fn fresh_match_layout() {
    let sim = Simulation::new();
    assert_eq!(sim.red.pos.x, -20000);
    assert_eq!(sim.red.pos.y, 0);
    assert_eq!(sim.blue.pos.x, 20000);
    assert_eq!(sim.ball.pos.x, 0);
    assert_eq!(sim.red.radius, 2500);
    assert_eq!(sim.ball.radius, 1000);
    assert_eq!(sim.score, Score { red: 0, blue: 0 });
    assert_eq!(sim.display, DisplayText::Score { red: 0, blue: 0 });
    assert!(sim.within_bounds());
}

#[test]
fn entity_lookup_by_role() {
    let sim = Simulation::new();
    assert_eq!(sim.entity(Role::RedPaddle).role, Role::RedPaddle);
    assert_eq!(sim.entity(Role::BluePaddle).pos.x, 20000);
    assert_eq!(sim.entity(Role::Ball).radius, 1000);
}

#[test]
fn snapshot_reflects_the_state() {
    let mut sim = Simulation::new();
    sim.score.red = 1;
    sim.ball.pos.x = 123;
    let snap = sim.snapshot();
    assert_eq!(snap.score.red, 1);
    assert_eq!(snap.ball.pos.x, 123);
    assert_eq!(snap.red.pos.x, -20000);
}

#[test]
fn apply_input_stores_per_paddle() {
    let mut sim = Simulation::new();
    sim.apply_input(Role::RedPaddle, hold_right());
    assert!(sim.red_input.right);
    assert!(!sim.blue_input.right);
    let up = PaddleInput { up: true, down: false, left: false, right: false, shoot: false };
    sim.apply_input(Role::BluePaddle, up);
    assert!(sim.blue_input.up);
    assert!(sim.red_input.right);
}

#[test]
fn driving_red_into_the_ball_imparts_rightward_speed() {
    let mut sim = Simulation::new();
    sim.apply_input(Role::RedPaddle, hold_right());
    let mut last_x = sim.red.pos.x;
    for tick in 0..120 {
        assert!(sim.within_bounds());
        sim.step();
        if tick < 50 {
            // fifty ticks of "move right": x climbs every tick
            assert!(sim.red.pos.x > last_x);
        }
        last_x = sim.red.pos.x;
    }
    // on the way the paddle caps at max speed, reaches the ball and
    // knocks it to the right
    assert!(sim.red.pos.x > -20000);
    assert!(sim.ball.vel.x > 0 || sim.ball.pos.x > 0);
}

#[test]
fn a_tick_without_input_changes_nothing_at_rest() {
    let mut sim = Simulation::new();
    sim.step();
    assert_eq!(sim.red.pos.x, -20000);
    assert_eq!(sim.blue.pos.x, 20000);
    assert_eq!(sim.ball.pos.x, 0);
    assert_eq!(sim.score, Score { red: 0, blue: 0 });
}

#[test]
fn menu_start_enters_the_game() {
    let action = menu_click(MenuItem::Start, GameState::InMenu, Background::Pitch2);
    assert_eq!(action.state, GameState::InGame);
    assert_eq!(action.background, Background::Pitch2);
    assert!(!action.quit);
}

#[test]
fn menu_change_pitch_cycles() {
    let a = menu_click(MenuItem::ChangePitch, GameState::InMenu, Background::Pitch1);
    assert_eq!(a.background, Background::Pitch2);
    let b = menu_click(MenuItem::ChangePitch, GameState::InMenu, Background::Pitch2);
    assert_eq!(b.background, Background::Pitch3);
    let c = menu_click(MenuItem::ChangePitch, GameState::InMenu, Background::Pitch3);
    assert_eq!(c.background, Background::Pitch1);
    assert_eq!(a.state, GameState::InMenu);
}

#[test]
fn menu_quit_asks_to_exit() {
    let action = menu_click(MenuItem::Quit, GameState::InMenu, Background::Pitch1);
    assert!(action.quit);
    assert_eq!(action.state, GameState::InMenu);
}

#[test]
fn quotients_round_toward_zero() {
    assert_eq!(div_trunc(7, 2), 3);
    assert_eq!(div_trunc(-7, 2), -3);
    assert_eq!(div_trunc(6, 3), 2);
    assert_eq!(div_trunc(-1, 5), 0);
}

#[test]
fn square_roots_round_down() {
    assert_eq!(isqrt(0), 0);
    assert_eq!(isqrt(1), 1);
    assert_eq!(isqrt(3), 1);
    assert_eq!(isqrt(4), 2);
    assert_eq!(isqrt(9_000_000), 3000);
    assert_eq!(isqrt(9_999_999), 3162);
}
