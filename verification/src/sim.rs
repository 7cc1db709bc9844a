//! The simulation state and the fixed tick that advances it.
//!
//! One tick applies, in order: the input mapper writes the paddle
//! velocities, the collision resolver handles red-ball, blue-ball and
//! paddle-paddle contacts, damping shrinks the ball's velocity,
//! movement integrates positions, the reflector flips velocities at
//! posts and walls, and the goal judge inspects the ball and may reset
//! the round and the score.
use vstd::prelude::*;

verus! {

use crate::boundary::{corners_outcome, edges_outcome, reflect_at_corners, reflect_at_edges};
use crate::collision::{
    collide_paddle_ball, collide_paddles, lemma_paddle_ball_outcome_bounds,
    lemma_paddles_outcome_bounds, paddle_ball_outcome, paddles_outcome,
};
use crate::entity::{Entity, Role, Vec2, Velocity};
use crate::motion::{
    apply_held_keys, damp_velocity, decayed, input_axis_horizontal, input_axis_vertical, integrate,
    PaddleInput,
};
use crate::score::{DisplayText, Score};
use crate::{
    BALL_RADIUS, BLUE_INITIAL_X, HALF_WIDTH, INPUT_ACCEL, KICK_SPEED, PLAYER_RADIUS, RED_INITIAL_X,
    SIM_BOUND, WIN_SCORE,
};

/// The whole state the simulation owns: the three bodies, the score,
/// the scoreboard line, and the latest input snapshot per paddle.
#[derive(Clone, Copy, PartialEq, Eq, Structural, Debug)]
pub struct Simulation {
    pub red: Entity,
    pub blue: Entity,
    pub ball: Entity,
    pub score: Score,
    pub display: DisplayText,
    pub red_input: PaddleInput,
    pub blue_input: PaddleInput,
}

/// A read-only view of the state, for rendering.
#[derive(Clone, Copy, PartialEq, Eq, Structural, Debug)]
pub struct Snapshot {
    pub red: Entity,
    pub blue: Entity,
    pub ball: Entity,
    pub score: Score,
    pub display: DisplayText,
}

/// A paddle's velocity after one tick of its held keys.
pub open spec fn applied_keys(v: Velocity, input: PaddleInput) -> Velocity {
    Velocity {
        x: input_axis_horizontal(v.x as int, input.left, input.right) as i128,
        y: input_axis_vertical(v.y as int, input.up, input.down) as i128,
    }
}

/// A velocity after one damping tick on each axis.
pub open spec fn damped(v: Velocity) -> Velocity {
    Velocity { x: decayed(v.x as int) as i128, y: decayed(v.y as int) as i128 }
}

/// A body after one movement tick.
pub open spec fn moved(e: Entity) -> Entity {
    Entity {
        pos: Vec2 { x: (e.pos.x + e.vel.x) as i128, y: (e.pos.y + e.vel.y) as i128 },
        ..e
    }
}

/// A body after the reflector: the corner posts first, then the walls.
pub open spec fn reflected(e: Entity) -> Entity {
    let ec = Entity { vel: corners_outcome(e), ..e };
    Entity { vel: edges_outcome(ec), ..ec }
}

/// A body put back at its round-start place: centred vertically at the
/// given x, at rest.
pub open spec fn reset_entity(e: Entity, x: int) -> Entity {
    Entity { pos: Vec2 { x: x as i128, y: 0 }, vel: Velocity { x: 0, y: 0 }, ..e }
}

/// The goal and match judge.  A ball at or past a side wall scores for
/// the player attacking that side; the scoreboard shows the new score
/// and the round is reset in place.  Then, whenever a score stands at
/// the threshold, both scores reset and the winner's message shows.
pub open spec fn judged(s: Simulation) -> Simulation {
    let s1 = if s.ball.pos.x >= HALF_WIDTH || s.ball.pos.x <= -HALF_WIDTH {
        let sc = if s.ball.pos.x >= HALF_WIDTH {
            Score { red: (s.score.red + 1) as i32, blue: s.score.blue }
        } else {
            Score { red: s.score.red, blue: (s.score.blue + 1) as i32 }
        };
        Simulation {
            red: reset_entity(s.red, RED_INITIAL_X as int),
            blue: reset_entity(s.blue, BLUE_INITIAL_X as int),
            ball: reset_entity(s.ball, 0),
            score: sc,
            display: DisplayText::Score { red: sc.red, blue: sc.blue },
            ..s
        }
    } else {
        s
    };
    if s1.score.red == WIN_SCORE {
        Simulation { score: Score { red: 0, blue: 0 }, display: DisplayText::RedWins, ..s1 }
    } else if s1.score.blue == WIN_SCORE {
        Simulation { score: Score { red: 0, blue: 0 }, display: DisplayText::BlueWins, ..s1 }
    } else {
        s1
    }
}

/// The three bodies after the physics passes of one tick: input,
/// collisions, damping, movement, reflection.
pub open spec fn physics_stepped(s: Simulation) -> Simulation {
    let red1 = Entity { vel: applied_keys(s.red.vel, s.red_input), ..s.red };
    let blue1 = Entity { vel: applied_keys(s.blue.vel, s.blue_input), ..s.blue };
    let pr = paddle_ball_outcome(red1, s.ball, s.red_input.shoot);
    let pb = paddle_ball_outcome(blue1, pr.1, s.blue_input.shoot);
    let pp = paddles_outcome(pr.0, pb.0);
    let ball4 = Entity { vel: damped(pb.1.vel), ..pb.1 };
    let red5 = reflected(moved(pp.0));
    let blue5 = reflected(moved(pp.1));
    let ball6 = reflected(moved(ball4));
    Simulation { red: red5, blue: blue5, ball: ball6, ..s }
}

/// The state one whole tick later: the physics passes, then the judge.
pub open spec fn stepped(s: Simulation) -> Simulation {
    judged(physics_stepped(s))
}

impl Simulation {
    /// The state a fresh match starts from: paddles at their initial
    /// x positions, the ball at the centre, everything at rest.
    pub open spec fn initial() -> Simulation {
        Simulation {
            red: Entity {
                pos: Vec2 { x: RED_INITIAL_X, y: 0 },
                vel: Velocity { x: 0, y: 0 },
                radius: PLAYER_RADIUS,
                role: Role::RedPaddle,
            },
            blue: Entity {
                pos: Vec2 { x: BLUE_INITIAL_X, y: 0 },
                vel: Velocity { x: 0, y: 0 },
                radius: PLAYER_RADIUS,
                role: Role::BluePaddle,
            },
            ball: Entity {
                pos: Vec2 { x: 0, y: 0 },
                vel: Velocity { x: 0, y: 0 },
                radius: BALL_RADIUS,
                role: Role::Ball,
            },
            score: Score { red: 0, blue: 0 },
            display: DisplayText::Score { red: 0, blue: 0 },
            red_input: PaddleInput {
                up: false,
                down: false,
                left: false,
                right: false,
                shoot: false,
            },
            blue_input: PaddleInput {
                up: false,
                down: false,
                left: false,
                right: false,
                shoot: false,
            },
        }
    }

    /// Exactly one entity of each role, each with its role's radius,
    /// and a running score still short of the threshold.
    pub open spec fn wf(self) -> bool {
        &&& self.red.role == Role::RedPaddle
        &&& self.blue.role == Role::BluePaddle
        &&& self.ball.role == Role::Ball
        &&& self.red.wf()
        &&& self.blue.wf()
        &&& self.ball.wf()
        &&& 0 <= self.score.red < WIN_SCORE
        &&& 0 <= self.score.blue < WIN_SCORE
    }

    /// All coordinates and velocities lie within SIM_BOUND, the machine
    /// limit a step asks for.
    pub open spec fn in_bounds(self) -> bool {
        &&& self.red.bounded(SIM_BOUND as int)
        &&& self.blue.bounded(SIM_BOUND as int)
        &&& self.ball.bounded(SIM_BOUND as int)
    }

    /// Starts a fresh match.
    pub fn new() -> (s: Simulation)
        ensures
            s == Simulation::initial(),
            s.wf(),
            s.in_bounds(),
    {
        Simulation {
            red: Entity {
                pos: Vec2 { x: RED_INITIAL_X, y: 0 },
                vel: Velocity { x: 0, y: 0 },
                radius: PLAYER_RADIUS,
                role: Role::RedPaddle,
            },
            blue: Entity {
                pos: Vec2 { x: BLUE_INITIAL_X, y: 0 },
                vel: Velocity { x: 0, y: 0 },
                radius: PLAYER_RADIUS,
                role: Role::BluePaddle,
            },
            ball: Entity {
                pos: Vec2 { x: 0, y: 0 },
                vel: Velocity { x: 0, y: 0 },
                radius: BALL_RADIUS,
                role: Role::Ball,
            },
            score: Score { red: 0, blue: 0 },
            display: DisplayText::Score { red: 0, blue: 0 },
            red_input: PaddleInput {
                up: false,
                down: false,
                left: false,
                right: false,
                shoot: false,
            },
            blue_input: PaddleInput {
                up: false,
                down: false,
                left: false,
                right: false,
                shoot: false,
            },
        }
    }

    /// Stores the held-key snapshot for one paddle; the next ticks use
    /// it until a new snapshot arrives.
    pub fn apply_input(&mut self, role: Role, input: PaddleInput)
        requires
            role != Role::Ball,
        ensures
            role == Role::RedPaddle ==> *final(self) == (Simulation {
                red_input: input,
                ..*old(self)
            }),
            role == Role::BluePaddle ==> *final(self) == (Simulation {
                blue_input: input,
                ..*old(self)
            }),
    {
        match role {
            Role::RedPaddle => {
                self.red_input = input;
            },
            Role::BluePaddle => {
                self.blue_input = input;
            },
            Role::Ball => {},
        }
    }

    /// The entity of a role; the fixed set of three makes the lookup
    /// total.
    pub fn entity(&self, role: Role) -> (e: &Entity)
        ensures
            role == Role::RedPaddle ==> *e == self.red,
            role == Role::BluePaddle ==> *e == self.blue,
            role == Role::Ball ==> *e == self.ball,
    {
        match role {
            Role::RedPaddle => &self.red,
            Role::BluePaddle => &self.blue,
            Role::Ball => &self.ball,
        }
    }

    /// A copy of everything the renderer reads.
    pub fn snapshot(&self) -> (s: Snapshot)
        ensures
            s.red == self.red,
            s.blue == self.blue,
            s.ball == self.ball,
            s.score == self.score,
            s.display == self.display,
    {
        Snapshot {
            red: self.red,
            blue: self.blue,
            ball: self.ball,
            score: self.score,
            display: self.display,
        }
    }

    /// Whether the state is within the machine limit a step asks for;
    /// hosts can test this before calling step.
    pub fn within_bounds(&self) -> (r: bool)
        ensures
            r == self.in_bounds(),
    {
        self.red.check_bounded(SIM_BOUND) && self.blue.check_bounded(SIM_BOUND)
            && self.ball.check_bounded(SIM_BOUND)
    }

    /// Runs the goal and match judge once.
    #[verifier::rlimit(50)]
    pub fn run_judge(&mut self)
        requires
            -1_000_000_000 <= old(self).score.red <= 1_000_000_000,
            -1_000_000_000 <= old(self).score.blue <= 1_000_000_000,
        ensures
            *final(self) == judged(*old(self)),
    {
        if self.ball.pos.x >= HALF_WIDTH || self.ball.pos.x <= -HALF_WIDTH {
            if self.ball.pos.x >= HALF_WIDTH {
                self.score.red = self.score.red + 1;
            } else {
                self.score.blue = self.score.blue + 1;
            }
            self.display = DisplayText::Score { red: self.score.red, blue: self.score.blue };
            self.red.pos.x = RED_INITIAL_X;
            self.red.pos.y = 0;
            self.red.vel.x = 0;
            self.red.vel.y = 0;
            self.blue.pos.x = BLUE_INITIAL_X;
            self.blue.pos.y = 0;
            self.blue.vel.x = 0;
            self.blue.vel.y = 0;
            self.ball.pos.x = 0;
            self.ball.pos.y = 0;
            self.ball.vel.x = 0;
            self.ball.vel.y = 0;
        }
        if self.score.red == WIN_SCORE {
            self.score.red = 0;
            self.score.blue = 0;
            self.display = DisplayText::RedWins;
        } else if self.score.blue == WIN_SCORE {
            self.score.red = 0;
            self.score.blue = 0;
            self.display = DisplayText::BlueWins;
        }
    }

    /// Runs the physics passes of one tick, in order: input mapping,
    /// the three collision checks, ball damping, movement, and the
    /// reflector.
    #[verifier::rlimit(100)]
    fn run_physics(&mut self)
        requires
            old(self).wf(),
            old(self).in_bounds(),
        ensures
            *final(self) == physics_stepped(*old(self)),
            final(self).wf(),
    {
        let ghost s0 = *self;
        apply_held_keys(&mut self.red.vel, self.red_input);
        apply_held_keys(&mut self.blue.vel, self.blue_input);
        let ghost red1 = Entity { vel: applied_keys(s0.red.vel, s0.red_input), ..s0.red };
        let ghost blue1 = Entity { vel: applied_keys(s0.blue.vel, s0.blue_input), ..s0.blue };
        let ghost pr = paddle_ball_outcome(red1, s0.ball, s0.red_input.shoot);
        proof {
            assert(self.red == red1 && self.blue == blue1 && self.ball == s0.ball);
            assert(self.red.vel_bounded(SIM_BOUND + INPUT_ACCEL));
            assert(self.blue.vel_bounded(SIM_BOUND + INPUT_ACCEL));
            lemma_paddle_ball_outcome_bounds(
                red1,
                s0.ball,
                s0.red_input.shoot,
                SIM_BOUND as int,
                SIM_BOUND + INPUT_ACCEL as int,
            );
        }
        collide_paddle_ball(&mut self.red, &mut self.ball, self.red_input.shoot);
        let ghost pb = paddle_ball_outcome(blue1, pr.1, s0.blue_input.shoot);
        proof {
            assert(self.red == pr.0 && self.ball == pr.1);
            lemma_paddle_ball_outcome_bounds(
                blue1,
                pr.1,
                s0.blue_input.shoot,
                SIM_BOUND + 25_000_000,
                4 * (SIM_BOUND + INPUT_ACCEL + KICK_SPEED) as int,
            );
        }
        collide_paddle_ball(&mut self.blue, &mut self.ball, self.blue_input.shoot);
        let ghost pp = paddles_outcome(pr.0, pb.0);
        proof {
            assert(self.blue == pb.0 && self.ball == pb.1);
            lemma_paddles_outcome_bounds(
                pr.0,
                pb.0,
                SIM_BOUND + 50_000_000,
                4 * (4 * (SIM_BOUND + INPUT_ACCEL + KICK_SPEED) + KICK_SPEED) as int,
            );
        }
        collide_paddles(&mut self.red, &mut self.blue);
        let ghost ball4 = Entity { vel: damped(pb.1.vel), ..pb.1 };
        proof {
            assert(self.red == pp.0 && self.blue == pp.1);
        }
        damp_velocity(&mut self.ball.vel);
        proof {
            assert(self.ball == ball4);
        }
        integrate(&mut self.red);
        integrate(&mut self.blue);
        integrate(&mut self.ball);
        let ghost red4 = moved(pp.0);
        let ghost blue4 = moved(pp.1);
        let ghost ball5 = moved(ball4);
        proof {
            assert(self.red == red4 && self.blue == blue4 && self.ball == ball5);
        }
        reflect_at_corners(&mut self.red);
        reflect_at_corners(&mut self.blue);
        reflect_at_corners(&mut self.ball);
        reflect_at_edges(&mut self.red);
        reflect_at_edges(&mut self.blue);
        reflect_at_edges(&mut self.ball);
        let ghost s7 = Simulation {
            red: reflected(red4),
            blue: reflected(blue4),
            ball: reflected(ball5),
            ..s0
        };
        proof {
            assert(self.red == reflected(red4));
            assert(self.blue == reflected(blue4));
            assert(self.ball == reflected(ball5));
            assert(*self == s7);
            assert(physics_stepped(s0) == s7);
        }
    }

    /// Advances the simulation one fixed tick.
    pub fn step(&mut self)
        requires
            old(self).wf(),
            old(self).in_bounds(),
        ensures
            *final(self) == stepped(*old(self)),
            final(self).wf(),
    {
        let ghost s0 = *self;
        self.run_physics();
        let ghost s7 = *self;
        self.run_judge();
        proof {
            assert(*self == judged(s7));
            assert(stepped(s0) == judged(physics_stepped(s0)));
            assert(self.wf());
        }
    }
}

} // verus!
