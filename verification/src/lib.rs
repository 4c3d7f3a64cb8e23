//! Simulation core of a small arcade game: a player-controlled circle dodges
//! pursuing enemies while rotating triangular gate hazards spawn over time.
//! All world state is kept in fixed-point integer coordinates so that the
//! geometry and the per-tick state transitions can be stated and proved
//! exactly.

pub mod collision;
pub mod constants;
pub mod fixed;
pub mod game;
pub mod game_object;
pub mod rng;
pub mod trig;

