//! What the window keeps between frames.

pub mod user_input;
