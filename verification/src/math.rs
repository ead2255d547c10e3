//! Points and axis-aligned rectangles over fixed-point coordinates, with the
//! two overlap tests that the collision stages are built on.
use vstd::prelude::*;
use crate::fixed::{
    clamped, difference, halved, product, sum, half, sat_add, sat_mul, sat_sub, wide_square,
};

verus! {

/// A point or a displacement in the plane.
#[derive(Clone, Copy, Debug, PartialEq, Eq, Structural)]
pub struct Vector2 {
    pub x: i32,
    pub y: i32,
}

/// An axis-aligned rectangle, given by its top-left corner and its size.
#[derive(Clone, Copy, Debug, PartialEq, Eq, Structural)]
pub struct Rectangle {
    pub x: i32,
    pub y: i32,
    pub width: i32,
    pub height: i32,
}

impl Vector2 {
    /// The origin.
    pub open spec fn origin() -> Vector2 {
        Vector2 { x: 0, y: 0 }
    }

    /// The point reached from `self` after moving with `velocity` for `dt`.
    pub open spec fn moved(self, velocity: Vector2, dt: i32) -> Vector2 {
        Vector2 {
            x: sum(self.x, product(velocity.x, dt)),
            y: sum(self.y, product(velocity.y, dt)),
        }
    }

    /// The point a fraction `amount` of the way from `self` to `to`.
    pub open spec fn mixed(self, to: Vector2, amount: i32) -> Vector2 {
        Vector2 {
            x: sum(self.x, product(difference(to.x, self.x), amount)),
            y: sum(self.y, product(difference(to.y, self.y), amount)),
        }
    }

    /// The square of the distance between two points, in squared raw units.
    pub open spec fn distance_sq(self, other: Vector2) -> int {
        (self.x - other.x) * (self.x - other.x) + (self.y - other.y) * (self.y - other.y)
    }

    pub fn new(x: i32, y: i32) -> (v: Vector2)
        ensures
            v == (Vector2 { x, y }),
    {
        Vector2 { x, y }
    }

    pub fn zero() -> (v: Vector2)
        ensures
            v == Vector2::origin(),
    {
        Vector2 { x: 0, y: 0 }
    }

    /// Explicit Euler step: `self + velocity * dt`.
    pub fn advance(&self, velocity: Vector2, dt: i32) -> (v: Vector2)
        ensures
            v == self.moved(velocity, dt),
    {
        Vector2 {
            x: sat_add(self.x, sat_mul(velocity.x, dt)),
            y: sat_add(self.y, sat_mul(velocity.y, dt)),
        }
    }

    /// Linear interpolation: `self + (to - self) * amount`.
    pub fn lerp(&self, to: Vector2, amount: i32) -> (v: Vector2)
        ensures
            v == self.mixed(to, amount),
    {
        Vector2 {
            x: sat_add(self.x, sat_mul(sat_sub(to.x, self.x), amount)),
            y: sat_add(self.y, sat_mul(sat_sub(to.y, self.y), amount)),
        }
    }

    /// Whether `other` lies no farther from `self` than `reach`. Only the
    /// magnitude of `reach` counts.
    pub fn within(&self, other: Vector2, reach: i32) -> (b: bool)
        ensures
            b == (self.distance_sq(other) <= reach * reach),
    {
        let dx: i128 = wide_square(self.x as i64 - other.x as i64);
        let dy: i128 = wide_square(self.y as i64 - other.y as i64);
        let rr: i128 = wide_square(reach as i64);
        dx + dy <= rr
    }
}

impl Rectangle {
    /// The x coordinate of the centre: `x + width / 2`.
    pub open spec fn mid_x(self) -> i32 {
        sum(self.x, halved(self.width))
    }

    /// The square of the distance from `p` to the nearest point of the
    /// rectangle, its border included.
    pub open spec fn distance_sq_to(self, p: Vector2) -> int {
        let nx = clamped(p.x as int, self.x as int, self.x + self.width);
        let ny = clamped(p.y as int, self.y as int, self.y + self.height);
        (p.x - nx) * (p.x - nx) + (p.y - ny) * (p.y - ny)
    }

    /// Whether the circle round `center` reaches the rectangle. A circle that
    /// only touches the border counts.
    pub open spec fn touches_circle(self, center: Vector2, radius: i32) -> bool {
        self.distance_sq_to(center) <= radius * radius
    }

    /// Whether two rectangles share interior points. Rectangles that only
    /// share a border do not.
    pub open spec fn intersects(self, other: Rectangle) -> bool {
        &&& self.x < other.x + other.width
        &&& self.x + self.width > other.x
        &&& self.y < other.y + other.height
        &&& self.y + self.height > other.y
    }

    pub fn new(x: i32, y: i32, width: i32, height: i32) -> (r: Rectangle)
        ensures
            r == (Rectangle { x, y, width, height }),
    {
        Rectangle { x, y, width, height }
    }

    pub fn center_x(&self) -> (c: i32)
        ensures
            c == self.mid_x(),
    {
        sat_add(self.x, half(self.width))
    }

    pub fn check_collision_recs(&self, other: &Rectangle) -> (b: bool)
        ensures
            b == self.intersects(*other),
    {
        (self.x as i64) < other.x as i64 + other.width as i64
            && self.x as i64 + self.width as i64 > other.x as i64
            && (self.y as i64) < other.y as i64 + other.height as i64
            && self.y as i64 + self.height as i64 > other.y as i64
    }

    pub fn check_collision_circle_rec(&self, center: Vector2, radius: i32) -> (b: bool)
        ensures
            b == self.touches_circle(center, radius),
    {
        let nx: i64 = nearest(center.x, self.x, self.width);
        let ny: i64 = nearest(center.y, self.y, self.height);
        let dx: i128 = wide_square(center.x as i64 - nx);
        let dy: i128 = wide_square(center.y as i64 - ny);
        let rr: i128 = wide_square(radius as i64);
        dx + dy <= rr
    }
}

/// The coordinate of the interval from `start` of length `extent` that is
/// nearest to `v`.
fn nearest(v: i32, start: i32, extent: i32) -> (n: i64)
    ensures
        n == clamped(v as int, start as int, start + extent),
        -0x2_0000_0000 <= v - n <= 0x2_0000_0000,
{
    let lo: i64 = start as i64;
    let hi: i64 = start as i64 + extent as i64;
    if (v as i64) < lo {
        lo
    } else if v as i64 > hi {
        hi
    } else {
        v as i64
    }
}

} // verus!
