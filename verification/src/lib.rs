//! A deterministic 2D platformer core: entities with position, velocity and
//! axis-aligned hitboxes move under gravity and drag, collide with static
//! rectangular walls, and respond to a set of held keys.
//!
//! Every quantity is a fixed-point integer: a value of `SCALE` stands for one
//! world unit, and a time delta of `SCALE` stands for one second.  This keeps
//! the whole per-frame update a deterministic, exactly specified computation.

pub mod app;
pub mod entity;
pub mod fixed;
pub mod game;
pub mod laws;
pub mod physics;
pub mod rect;
pub mod vector;

pub use fixed::SCALE;
