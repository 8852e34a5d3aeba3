//! Core rules of a small arcade market game.
//!
//! Traders wander a 2D arena while rumor projectiles fly around and collide
//! with them, flipping their market sentiment; the aggregate sentiment drives
//! a simulated stock price that the player trades against.  This crate holds
//! the simulation rules themselves — movement, circular collision detection,
//! the trader sentiment state machine with its chain-reaction projectile
//! spawning, timers, and the price/trading bookkeeping — specified and
//! verified over plain integer data.  A host front end owns rendering, audio
//! and input and drives these rules once per fixed tick.
//!
//! All geometry is carried in milli-units: one thousandth of a world unit,
//! so a world 600 units wide spans 600_000 milli-units.  Durations are
//! milliseconds.

pub mod config;
pub mod dialogue;
pub mod game;
pub mod game_states;
pub mod geom;
pub mod investing;
pub mod movement;
pub mod physics;
pub mod rng;
pub mod shooting;
pub mod stonks;
pub mod timer;
pub mod traders;
pub mod ui;
