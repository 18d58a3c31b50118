//! The engine's core: a typed resource store with checked borrowing, a deferred
//! message dispatcher, and the small maths and input types around them.

pub mod benchmark;
pub mod common;
pub mod erased;
pub mod maths;
pub mod message;
pub mod renderer;
pub mod resource;
pub mod shader;
pub mod types;
pub mod window;
