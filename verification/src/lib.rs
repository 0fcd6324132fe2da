//! Rules of a meteor-dodging arcade game, kept apart from the engine that
//! draws it.
//!
//! Everything here works on whole numbers and small enumerations: hit points,
//! the score, the difficulty ramp, animation frames, what a button does, and
//! where a meteor may appear. The engine side feeds these functions with what
//! it observed during a frame (collisions, timers that fired, keys held down)
//! and applies what they return.

pub mod animation;
pub mod controls;
pub mod difficulty;
pub mod health;
pub mod hearts;
pub mod meteor;
pub mod rng;
pub mod run;
pub mod score;
pub mod state;
pub mod text;
