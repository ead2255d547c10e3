//! The ball and its four states.
use vstd::prelude::*;
use crate::constants::{BALL_RADIUS, VELOCITY};
use crate::fixed::negated;
use crate::game::GameEvent;
use crate::math::Vector2;
use crate::physics::HitBox;
use crate::systems::physics::{update_ball_position, wall_stage};

verus! {

/// Where the ball is in its life cycle.
#[derive(Clone, Copy, Debug, PartialEq, Eq, Structural)]
pub enum Status {
    /// Gliding from the life counter back to the paddle.
    Spawning,
    /// Resting on the paddle, waiting to be launched.
    Start,
    /// In flight.
    Running,
    /// Lost past the bottom edge.
    Dead,
}

#[derive(Clone, Copy, Debug, PartialEq, Eq, Structural)]
pub struct Ball {
    /// Centre of the ball.
    pub pos: Vector2,
    pub velocity: Vector2,
    pub status: Status,
    pub radius: i32,
}

impl Ball {
    /// Only a ball in flight moves: in every other state its velocity is zero.
    pub open spec fn rests_unless_running(self) -> bool {
        !(self.status is Running) ==> self.velocity == Vector2::origin()
    }

    /// The ball of a new session.
    pub open spec fn initial() -> Ball {
        Ball {
            pos: Vector2::origin(),
            velocity: Vector2::origin(),
            status: Status::Start,
            radius: BALL_RADIUS,
        }
    }

    /// The ball after it was lost: stopped and `Dead`. A dead ball stays as it is.
    pub open spec fn died(self) -> Ball {
        if self.status is Dead {
            self
        } else {
            Ball { status: Status::Dead, velocity: Vector2::origin(), ..self }
        }
    }

    /// The ball put back to `Start`, at rest at the origin.
    pub open spec fn cleared(self) -> Ball {
        Ball {
            status: Status::Start,
            velocity: Vector2::origin(),
            pos: Vector2::origin(),
            ..self
        }
    }

    /// The ball after a launch: a ball at `Start` flies straight up at
    /// [`VELOCITY`]; in any other state the launch changes nothing.
    pub open spec fn launched(self) -> Ball {
        if self.status is Start {
            Ball {
                velocity: Vector2 { x: self.velocity.x, y: negated(VELOCITY) },
                status: Status::Running,
                ..self
            }
        } else {
            self
        }
    }

    pub fn new() -> (b: Ball)
        ensures
            b == Ball::initial(),
            b.rests_unless_running(),
    {
        Ball {
            pos: Vector2::zero(),
            velocity: Vector2::zero(),
            status: Status::Start,
            radius: BALL_RADIUS,
        }
    }

    /// Advances the ball by `dt` and resolves contact with the arena's edges.
    /// Returns the event of that contact, if there was one.
    pub fn update(&mut self, dt: i32) -> (events: Vec<GameEvent>)
        ensures
            *final(self) == wall_stage(*old(self), dt).0,
            events@ == wall_stage(*old(self), dt).1,
    {
        update_ball_position(self, dt)
    }

    pub fn die(&mut self)
        ensures
            *final(self) == old(self).died(),
    {
        match self.status {
            Status::Dead => {},
            _ => {
                self.status = Status::Dead;
                self.velocity = Vector2::zero();
            },
        }
    }

    pub fn reset(&mut self)
        ensures
            *final(self) == old(self).cleared(),
    {
        self.status = Status::Start;
        self.velocity = Vector2::zero();
        self.pos = Vector2::zero();
    }

    pub fn launch(&mut self)
        ensures
            *final(self) == old(self).launched(),
    {
        match self.status {
            Status::Start => {
                self.velocity.y = -VELOCITY;
                self.status = Status::Running;
            },
            _ => {},
        }
    }

    /// Whether a circle of the standard ball radius round this ball's centre
    /// reaches `hitbox`.
    pub fn collides_with_hitbox(&self, hitbox: &HitBox) -> (b: bool)
        ensures
            b == hitbox.rect.touches_circle(self.pos, BALL_RADIUS),
    {
        hitbox.overlaps_circle(self.pos, BALL_RADIUS)
    }
}

/// A ball that is at rest unless in flight is so again after it dies or is
/// launched, and any ball is after a reset.
pub proof fn lemma_transitions_keep_idle_ball_at_rest(b: Ball)
    ensures
        b.rests_unless_running() ==> b.died().rests_unless_running(),
        b.rests_unless_running() ==> b.launched().rests_unless_running(),
        b.cleared().rests_unless_running(),
        b.died().status is Dead,
{
}

} // verus!
