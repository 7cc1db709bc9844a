//! The moving bodies of the game: two paddles and a ball, each a circle
//! with a position, a velocity and a fixed radius.
use vstd::prelude::*;

verus! {

use crate::{BALL_RADIUS, PLAYER_RADIUS};

/// A point or displacement on the pitch, in centiunits, with the origin
/// at the pitch centre.
#[derive(Clone, Copy, PartialEq, Eq, Structural, Debug)]
pub struct Vec2 {
    pub x: i128,
    pub y: i128,
}

/// A velocity in centiunits per tick.
#[derive(Clone, Copy, PartialEq, Eq, Structural, Debug)]
pub struct Velocity {
    pub x: i128,
    pub y: i128,
}

/// Which of the three bodies an entity is.
#[derive(Clone, Copy, PartialEq, Eq, Structural, Debug)]
pub enum Role {
    RedPaddle,
    BluePaddle,
    Ball,
}

/// One circular body.  The radius is fixed per role and never changes
/// after the entity is made.
#[derive(Clone, Copy, PartialEq, Eq, Structural, Debug)]
pub struct Entity {
    pub pos: Vec2,
    pub vel: Velocity,
    pub radius: i128,
    pub role: Role,
}

/// The radius each role is spawned with.
pub open spec fn radius_of(role: Role) -> int {
    match role {
        Role::Ball => BALL_RADIUS as int,
        _ => PLAYER_RADIUS as int,
    }
}

impl Entity {
    /// An entity is well formed when it carries the radius of its role.
    pub open spec fn wf(self) -> bool {
        self.radius == radius_of(self.role)
    }

    /// Both coordinates lie within b.
    pub open spec fn pos_bounded(self, b: int) -> bool {
        &&& -b <= self.pos.x <= b
        &&& -b <= self.pos.y <= b
    }

    /// Both velocity components lie within b.
    pub open spec fn vel_bounded(self, b: int) -> bool {
        &&& -b <= self.vel.x <= b
        &&& -b <= self.vel.y <= b
    }

    /// Both coordinates and both velocity components lie within b.
    pub open spec fn bounded(self, b: int) -> bool {
        self.pos_bounded(b) && self.vel_bounded(b)
    }

    /// Whether every coordinate and velocity component lies within b.
    pub fn check_bounded(&self, b: i128) -> (r: bool)
        requires
            0 <= b,
        ensures
            r == self.bounded(b as int),
    {
        -b <= self.pos.x && self.pos.x <= b && -b <= self.pos.y && self.pos.y <= b && -b
            <= self.vel.x && self.vel.x <= b && -b <= self.vel.y && self.vel.y <= b
    }

    /// Spawns an entity of the given role, at rest at (x, y).
    pub fn spawn(role: Role, x: i128, y: i128) -> (e: Entity)
        ensures
            e.wf(),
            e.role == role,
            e.pos == (Vec2 { x: x as i128, y: y as i128 }),
            e.vel == (Velocity { x: 0, y: 0 }),
    {
        let radius = match role {
            Role::Ball => BALL_RADIUS,
            _ => PLAYER_RADIUS,
        };
        Entity { pos: Vec2 { x, y }, vel: Velocity { x: 0, y: 0 }, radius, role }
    }
}

} // verus!
