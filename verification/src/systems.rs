//! The stages that run on the entities once per frame, and what the session
//! hands to whoever plays sounds and draws.
pub mod audio;
pub mod physics;
pub mod render;
