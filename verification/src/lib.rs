//! Simulation core of a 2D arcade space shooter: a player ship on a toroidal
//! arena, fragmenting asteroids, periodically spawned aliens that shoot back,
//! and a per-frame pipeline of stages (ai, timers, movement, collision,
//! damage, game-state machine, cleanup, spawn) over a single mutable world.
//!
//! All quantities are fixed-point integers: distances in milli-units
//! (one thousandth of an arena unit), angles in whole degrees in `[0, 360)`,
//! times in milliseconds, and trigonometric magnitudes in thousandths.
//! Randomness is injected by the caller as plain values, so the whole core is
//! deterministic and every stage carries an exact contract.

pub mod cfg;
pub mod entity;
pub mod game;
pub mod systems;
pub mod trig;
