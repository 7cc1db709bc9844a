//! Core simulation of a two-player 2D mini-game: two round paddles and a
//! ball move on a bounded pitch with goal openings on the side walls, and
//! the first player to reach the score threshold wins the match.
//!
//! The library covers the physics and the rules: velocity damping, the
//! mapping from held keys to paddle velocities, circle-circle collision
//! response, reflection at walls and at the goal-mouth corner posts, goal
//! detection and score handling.  Rendering, asset loading, menu screens
//! and input-device polling are left to the host program, which feeds the
//! simulation one input snapshot per paddle and advances it one fixed tick
//! at a time.
//!
//! All coordinates, radii and speeds are integers in *centiunits*, i.e.
//! hundredths of a world unit, so that every constant of the game (a decay
//! step of 0.05 units, a maximum speed of 3 units, a pitch 1024 units
//! wide) is represented exactly.  Square roots round down and quotients
//! round toward zero; both roundings are part of the specified behaviour.
use vstd::prelude::*;

pub mod boundary;
pub mod collision;
pub mod entity;
pub mod menu;
pub mod motion;
pub mod num;
pub mod score;
pub mod sim;

verus! {

/// Largest speed, per axis, that the input mapper and the damping step
/// will not push a velocity beyond (3 units per tick).
pub const MAX_SPEED: i128 = 300;

/// Speed added per tick to a paddle's velocity while a direction key is
/// held (0.1 units).
pub const INPUT_ACCEL: i128 = 10;

/// Speed removed per tick from a coasting velocity, toward zero
/// (0.05 units).
pub const DECAY_STEP: i128 = 5;

/// Radius of each paddle (25 units).
pub const PLAYER_RADIUS: i128 = 2500;

/// Radius of the ball (10 units).
pub const BALL_RADIUS: i128 = 1000;

/// Radius of each goal-mouth corner post (10 units).
pub const CORNER_RADIUS: i128 = 1000;

/// Where the red paddle starts and returns after a goal (x = -200 units).
pub const RED_INITIAL_X: i128 = -20000;

/// Where the blue paddle starts and returns after a goal (x = 200 units).
pub const BLUE_INITIAL_X: i128 = 20000;

/// Half the width of the pitch (512 units); the side walls are at
/// x = -HALF_WIDTH and x = HALF_WIDTH.
pub const HALF_WIDTH: i128 = 51200;

/// Half the height of the pitch (384 units).
pub const HALF_HEIGHT: i128 = 38400;

/// Top of the goal gap: the corner posts sit at y = CORNER_UP_HEIGHT and
/// y = CORNER_DOWN_HEIGHT on each side wall (100 units).
pub const CORNER_UP_HEIGHT: i128 = 10000;

/// Bottom of the goal gap.
pub const CORNER_DOWN_HEIGHT: i128 = -10000;

/// Speed a shoot kick adds to the ball, along the paddle-to-ball axis
/// (5 units per tick); deliberately not clamped to MAX_SPEED.
pub const KICK_SPEED: i128 = 500;

/// A match ends as soon as either score reaches this threshold.
pub const WIN_SCORE: i32 = 3;

/// Bound on coordinates and velocities that a full simulation step asks
/// of its caller.  It is a machine limit, about two thousand times the
/// pitch, far beyond anything the game reaches; it keeps every
/// intermediate product of the tick inside an i128.
pub const SIM_BOUND: i128 = 1_000_000_000;

/// Bound on coordinates and velocities that the individual passes of a
/// tick ask for.  Values can grow within a tick (a collision right after
/// a kick), so the passes accept far more than SIM_BOUND; this bound
/// still keeps their arithmetic inside an i128.
pub const PASS_BOUND: i128 = 10_000_000_000_000;

/// Bound asked by the innermost collision response, looser than
/// PASS_BOUND because a shoot kick may be applied just before it.
pub const COLLIDE_BOUND: i128 = 20_000_000_000_000;

} // verus!
