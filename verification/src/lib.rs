//! Verified rules of a bubble-eating arena game: which bubble may eat which,
//! what an eat or a death changes, how identities are handed out, how spawning
//! is capped, and how a tick's collision events are chosen.
//!
//! The continuous geometry and motion of the game (positions, radii, speeds)
//! use floating point and live outside this library; they hand this library
//! the discrete facts it decides on.

pub mod ai;
pub mod bubble;
pub mod collision;
pub mod config;
pub mod game;
pub mod physics;
pub mod random;
pub mod spawn;
pub mod world;
