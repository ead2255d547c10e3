//! The entities of a session: plain data with local mutators.
pub mod ball;
pub mod bricks;
pub mod particle;
pub mod platform;

pub use ball::{Ball, Status};
pub use bricks::Brick;
pub use particle::Particle;
pub use platform::Platform;
