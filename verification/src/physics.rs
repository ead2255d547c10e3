//! Hit boxes: rectangles with the overlap tests used for contact detection.
use vstd::prelude::*;
use crate::constants::{WINDOW_H, WINDOW_W};
use crate::fixed::{difference, halved, half, sat_sub};
use crate::math::{Rectangle, Vector2};

verus! {

/// The region of the arena that an entity occupies.
#[derive(Clone, Copy, Debug, PartialEq, Eq, Structural)]
pub struct HitBox {
    pub rect: Rectangle,
}

impl HitBox {
    /// The rectangle of the given size whose centre is `pos`.
    pub open spec fn around(pos: Vector2, width: i32, height: i32) -> Rectangle {
        Rectangle {
            x: difference(pos.x, halved(width)),
            y: difference(pos.y, halved(height)),
            width,
            height,
        }
    }

    /// Whether the top-left corner lies outside the arena.
    pub open spec fn off_screen(self) -> bool {
        self.rect.y < 0 || self.rect.y > WINDOW_H || self.rect.x < 0 || self.rect.x > WINDOW_W
    }

    /// The hit box with top-left corner `pos`.
    pub fn new(pos: Vector2, width: i32, height: i32) -> (h: HitBox)
        ensures
            h.rect == (Rectangle { x: pos.x, y: pos.y, width, height }),
    {
        HitBox { rect: Rectangle::new(pos.x, pos.y, width, height) }
    }

    /// Whether this box and `other` share interior points.
    pub fn overlaps(&self, other: &Rectangle) -> (b: bool)
        ensures
            b == self.rect.intersects(*other),
    {
        self.rect.check_collision_recs(other)
    }

    /// Whether the circle round `circle_pos` reaches this box; touching counts.
    pub fn overlaps_circle(&self, circle_pos: Vector2, radius: i32) -> (b: bool)
        ensures
            b == self.rect.touches_circle(circle_pos, radius),
    {
        self.rect.check_collision_circle_rec(circle_pos, radius)
    }

    pub fn is_off_screen(&self) -> (b: bool)
        ensures
            b == self.off_screen(),
    {
        self.rect.y < 0 || self.rect.y > WINDOW_H || self.rect.x < 0 || self.rect.x > WINDOW_W
    }

    pub fn centered_on(pos: Vector2, width: i32, height: i32) -> (r: Rectangle)
        ensures
            r == HitBox::around(pos, width, height),
    {
        Rectangle {
            x: sat_sub(pos.x, half(width)),
            y: sat_sub(pos.y, half(height)),
            width,
            height,
        }
    }

    pub fn center_x(&self) -> (c: i32)
        ensures
            c == self.rect.mid_x(),
    {
        self.rect.center_x()
    }
}

} // verus!
