//! What a frame shows besides the entities themselves: where the markers of
//! the remaining lives sit, and which message is on display.
use vstd::prelude::*;
use crate::components::Status;
use crate::fixed::{HALF, ONE};
use crate::math::Vector2;

verus! {

/// Distance of the first life marker from the left and the top edge.
pub const MARGIN: i32 = 30 * ONE;

/// Distance between the centres of two life markers: two and a half radii.
pub const SPACING: i32 = 75 * HALF;

/// The message that goes with a state of the session.
#[derive(Clone, Copy, Debug, PartialEq, Eq, Structural)]
pub enum InfoText {
    /// Every brick is gone: the game is cleared and can be restarted.
    Cleared,
    /// The ball waits on the paddle for its launch.
    Launch,
    /// No life is left: the game is over and can be restarted.
    GameOver,
    /// Nothing to say.
    Nothing,
}

/// The place of the `i`-th life marker, counted from one. Marker zero lies
/// one spacing left of the first.
pub open spec fn life_marker(i: u8) -> Vector2 {
    Vector2 { x: (MARGIN + (i - 1) * SPACING) as i32, y: MARGIN }
}

/// The message for a session in the given state: a cleared game outranks
/// everything else.
pub open spec fn message(ball_status: Status, lives: u8, won: bool) -> InfoText {
    if won {
        InfoText::Cleared
    } else {
        match ball_status {
            Status::Start => InfoText::Launch,
            Status::Dead => if lives == 0 {
                InfoText::GameOver
            } else {
                InfoText::Nothing
            },
            _ => InfoText::Nothing,
        }
    }
}

pub fn get_ball_lives_pos(i: u8) -> (pos: Vector2)
    ensures
        pos == life_marker(i),
{
    Vector2 { x: MARGIN + (i as i32 - 1) * SPACING, y: MARGIN }
}

/// Which message to display.
pub fn info_text(ball_status: &Status, lives: u8, won: bool) -> (text: InfoText)
    ensures
        text == message(*ball_status, lives, won),
{
    if won {
        return InfoText::Cleared;
    }
    match ball_status {
        Status::Start => InfoText::Launch,
        Status::Dead => {
            if lives == 0 {
                InfoText::GameOver
            } else {
                InfoText::Nothing
            }
        },
        _ => InfoText::Nothing,
    }
}

/// The places of the markers for the lives in reserve: one for each life but
/// the one in play, the first marker first.
pub fn life_markers(lives: u8) -> (markers: Vec<Vector2>)
    ensures
        markers@.len() == if lives == 0 { 0int } else { lives - 1 },
        forall|k: int| 0 <= k < markers@.len() ==> markers@[k] == life_marker((k + 1) as u8),
{
    let mut markers: Vec<Vector2> = Vec::new();
    let mut i: u8 = 1;
    while i < lives
        invariant
            1 <= i,
            i <= lives || (lives == 0 && i == 1),
            markers@.len() == i - 1,
            forall|k: int| 0 <= k < markers@.len() ==> markers@[k] == life_marker((k + 1) as u8),
        decreases lives - i,
    {
        markers.push(get_ball_lives_pos(i));
        i = i + 1;
    }
    markers
}

} // verus!
