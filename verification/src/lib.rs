//! Deterministic simulation core of a two-paddle ball game.
//!
//! The library advances the game state once per tick: paddle kinematics,
//! ball integration, collision resolution against paddles and screen
//! boundaries, goal and score detection, a timed power-up subsystem, and
//! the match state machine. All geometry is integer-valued (field units
//! and milliseconds), so every rule is a provable statement; a
//! presentation layer owns rendering, audio and raw input and hands the
//! core only per-tick intents and time deltas.


pub mod ball;
pub mod collision;
pub mod config;
pub mod engine;
pub mod geom;
pub mod paddle;
pub mod powerup;
pub mod rng;
pub mod state;
pub mod text;

