//! The simulation core of a brick-breaking arcade game.
//!
//! A ball bounces in a walled arena, off a paddle that the player slides
//! along the bottom, and off bricks that it destroys. A ball that gets past
//! the paddle costs a life. The crate advances such a game frame by frame:
//! it takes the keys that are held and the time that has passed, and hands
//! back the events of the frame and the sounds to play. It opens no window
//! and plays no sound itself.
//!
//! All quantities are fixed-point numbers (see [`fixed`]), so that a game
//! runs the same on every machine. What a frame does is defined by the spec
//! functions of [`systems::physics`] and [`game`], and the executable code is
//! verified against them.
pub mod color;
pub mod components;
pub mod constants;
pub mod fixed;
pub mod game;
pub mod math;
pub mod physics;
pub mod sampler;
pub mod systems;
