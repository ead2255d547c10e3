//! Sound cues. The session only asks for them; playing them, or silently
//! doing without, is up to the caller.
use vstd::prelude::*;

verus! {

/// A request to play a sound.
#[derive(Clone, Copy, Debug, PartialEq, Eq, Structural)]
pub enum Cue {
    /// The ball bounced off something.
    Bounce,
    /// A life was lost and the next ball is on its way.
    Transition,
}

} // verus!
