//! The per-frame pipeline stages, in the order the frame runs them:
//! ai, timers, moving, collision, damage, gamestate, cleanup, spawn.
//! Each stage is a free `update` function over the world, the configuration
//! and the frame's inputs, with an exact contract; no stage but gamestate
//! mutates the game state field.

pub mod ai;
pub mod cleanup;
pub mod collision;
pub mod damage;
pub mod gamestate;
pub mod moving;
pub mod spawn;
pub mod timers;
