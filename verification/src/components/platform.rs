//! The paddle.
use vstd::prelude::*;
use crate::constants::{PLATFORM_H, PLATFORM_SPEED, PLATFORM_W, WINDOW_H, WINDOW_W};
use crate::fixed::{difference, halved, product, sum, half, sat_add, sat_mul, sat_sub};
use crate::math::{Rectangle, Vector2};
use crate::physics::HitBox;

verus! {

/// The player's paddle: a rectangle that slides along the bottom of the arena.
#[derive(Clone, Copy, Debug, PartialEq, Eq, Structural)]
pub struct Platform {
    /// Top-left corner.
    pub pos: Vector2,
    pub width: i32,
    pub height: i32,
}

impl Platform {
    /// The paddle of a new session: centred, resting on the bottom edge.
    pub open spec fn initial() -> Platform {
        Platform {
            pos: Vector2 {
                x: halved(difference(WINDOW_W, PLATFORM_W)),
                y: difference(WINDOW_H, PLATFORM_H),
            },
            width: PLATFORM_W,
            height: PLATFORM_H,
        }
    }

    /// The paddle lies between the side walls.
    pub open spec fn within_arena(self) -> bool {
        0 <= self.pos.x && self.pos.x + self.width <= WINDOW_W
    }

    /// The rectangle that the paddle covers.
    pub open spec fn frame(self) -> Rectangle {
        Rectangle { x: self.pos.x, y: self.pos.y, width: self.width, height: self.height }
    }

    /// The paddle after `dt` of leftward travel, stopped at the left wall.
    pub open spec fn moved_left(self, dt: i32) -> Platform {
        let x = difference(self.pos.x, product(PLATFORM_SPEED, dt));
        Platform { pos: Vector2 { x: if x < 0 { 0 } else { x }, y: self.pos.y }, ..self }
    }

    /// The paddle after `dt` of rightward travel, stopped at the right wall.
    pub open spec fn moved_right(self, dt: i32) -> Platform {
        let x = sum(self.pos.x, product(PLATFORM_SPEED, dt));
        Platform {
            pos: Vector2 {
                x: if x + self.width > WINDOW_W { difference(WINDOW_W, self.width) } else { x },
                y: self.pos.y,
            },
            ..self
        }
    }

    pub fn new() -> (p: Platform)
        ensures
            p == Platform::initial(),
            p.within_arena(),
            p.pos.x == 300 * 65536,
            p.pos.y == 585 * 65536,
    {
        let width: i32 = PLATFORM_W;
        let height: i32 = PLATFORM_H;
        let pos = Vector2 { x: half(sat_sub(WINDOW_W, width)), y: sat_sub(WINDOW_H, height) };
        Platform { pos, width, height }
    }

    pub fn move_left(&mut self, dt: i32)
        ensures
            *final(self) == old(self).moved_left(dt),
    {
        self.pos.x = sat_sub(self.pos.x, sat_mul(PLATFORM_SPEED, dt));
        if self.pos.x < 0 {
            self.pos.x = 0;
        }
    }

    pub fn move_right(&mut self, dt: i32)
        ensures
            *final(self) == old(self).moved_right(dt),
    {
        self.pos.x = sat_add(self.pos.x, sat_mul(PLATFORM_SPEED, dt));
        if self.pos.x as i64 + self.width as i64 > WINDOW_W as i64 {
            self.pos.x = sat_sub(WINDOW_W, self.width);
        }
    }

    pub fn bounds(&self) -> (r: Rectangle)
        ensures
            r == self.frame(),
    {
        Rectangle::new(self.pos.x, self.pos.y, self.width, self.height)
    }

    pub fn hitbox(&self) -> (h: HitBox)
        ensures
            h.rect == self.frame(),
    {
        HitBox::new(self.pos, self.width, self.height)
    }
}

/// A paddle between the side walls stays between them, whichever way it is
/// moved, as long as time does not run backwards.
pub proof fn lemma_paddle_stays_within_arena(p: Platform, dt: i32)
    requires
        p.within_arena(),
        dt >= 0,
    ensures
        p.moved_left(dt).within_arena(),
        p.moved_right(dt).within_arena(),
        p.moved_left(dt).pos.x <= p.pos.x <= p.moved_right(dt).pos.x,
{
}

} // verus!
