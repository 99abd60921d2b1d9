//! A single-file terminal audio player: the decisions of its control loop.
//!
//! The player is a small state machine. Keys become commands, commands change
//! the player and yield an action for the audio output to perform.

pub mod player;
pub mod laws;
pub mod startup;
