//! Display colours. The simulation only carries them from the entities to
//! whoever draws a frame.
use vstd::prelude::*;
use crate::fixed::{clamped, floor_div, ONE};

verus! {

/// A colour with 8 bits for each of red, green, blue and opacity.
#[derive(Clone, Copy, Debug, PartialEq, Eq, Structural)]
pub struct Color {
    pub r: u8,
    pub g: u8,
    pub b: u8,
    pub a: u8,
}

impl Color {
    /// The off-white that bricks and particles are drawn in.
    pub open spec fn off_white() -> Color {
        Color { r: 245, g: 245, b: 245, a: 255 }
    }

    /// The opacity byte for a fixed-point `alpha`: `alpha` is held to the
    /// range from zero to one, scaled to 255 and rounded down.
    pub open spec fn opacity(alpha: i32) -> u8 {
        (255 * clamped(alpha as int, 0, ONE as int) / (ONE as int)) as u8
    }

    /// This colour with its opacity replaced.
    pub open spec fn faded(self, alpha: i32) -> Color {
        Color { a: Color::opacity(alpha), ..self }
    }

    #[verifier::when_used_as_spec(off_white)]
    pub fn raywhite() -> (c: Color)
        ensures
            c == Color::off_white(),
    {
        Color { r: 245, g: 245, b: 245, a: 255 }
    }

    /// The colour with the same red, green and blue and the opacity `alpha`,
    /// a fixed-point number that is held to the range from zero to one.
    pub fn alpha(&self, alpha: i32) -> (c: Color)
        ensures
            c == self.faded(alpha),
    {
        let held: i64 = if alpha < 0 {
            0
        } else if alpha > ONE {
            ONE as i64
        } else {
            alpha as i64
        };
        let a: i64 = floor_div(255 * held, 65536);
        Color { r: self.r, g: self.g, b: self.b, a: a as u8 }
    }
}

} // verus!
