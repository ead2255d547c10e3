//! The fixed parameters of the arena and of the entities in it, as
//! fixed-point values.
use vstd::prelude::*;
use crate::fixed::ONE;

verus! {

/// Width of the arena.
pub const WINDOW_W: i32 = 900 * ONE;

/// Height of the arena.
pub const WINDOW_H: i32 = 600 * ONE;

/// Speed of a launched ball, in units per second.
pub const VELOCITY: i32 = 900 * ONE;

/// Radius of the ball.
pub const BALL_RADIUS: i32 = 15 * ONE;

/// Width of the paddle.
pub const PLATFORM_W: i32 = 300 * ONE;

/// Height of the paddle.
pub const PLATFORM_H: i32 = BALL_RADIUS;

/// Speed of the paddle while a direction is held, in units per second.
pub const PLATFORM_SPEED: i32 = 1000 * ONE;

/// Lives at the start of a session.
pub const MAX_LIVES: u8 = 3;

} // verus!
