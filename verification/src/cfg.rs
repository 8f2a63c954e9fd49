//! Tuning table of the simulation: arena dimensions, speeds, radii, timer
//! periods and the asteroid stage table. Every stage of the pipeline takes
//! the table as an explicit parameter, so alternate tuning is a data change.
//!
//! Units: distances and radii in milli-units, speeds in milli-units per
//! second, angles in degrees, durations in milliseconds.

use vstd::prelude::*;

verus! {

/// Largest speed any entity may carry, in milli-units per second.
pub const SPEED_CAP: u64 = 2_000_000;

/// Largest collision radius any entity may carry, in milli-units.
pub const RADIUS_CAP: u64 = 100_000;

/// Largest arena extent, in milli-units.
pub const ARENA_CAP: u64 = 100_000_000;

/// Largest frame duration handed to the pipeline, in milliseconds.
pub const MAX_FRAME_MILLIS: u32 = 1000;

/// Largest distance an entity can travel in one frame, in milli-units:
/// `SPEED_CAP` for `MAX_FRAME_MILLIS`.
pub const MAX_STEP: u64 = 2_000_000;

/// Largest configurable duration, in milliseconds.
pub const TIME_CAP: u32 = 1_000_000_000;

/// How far beyond the arena's horizontal edges an alien position may lie:
/// the exit margin plus two frames of travel (one frame between the exit
/// check and removal, plus headroom for the frame in progress).
pub const ALIEN_X_SLACK: i64 = 8_000_000;

/// Size and speed limit of one asteroid stage; stage 0 is the smallest,
/// terminal stage.
#[derive(Clone, Copy, PartialEq, Eq, Structural, Debug)]
pub struct AsteroidStage {
    /// Upper bound of the stage's random spawn speed, milli-units per second.
    pub max_speed: u64,
    /// Collision radius of asteroids of this stage, milli-units.
    pub radius: u64,
}

/// The immutable configuration table consumed by every pipeline stage.
pub struct Config {
    /// Arena width, milli-units.
    pub arena_width: u64,
    /// Arena height, milli-units.
    pub arena_height: u64,
    /// Ship speed above which thrust no longer applies, milli-units/s.
    pub ship_max_speed: u64,
    /// Thrust gained per second of acceleration, milli-units/s per second.
    pub ship_accel: u64,
    /// Exponential drag: thousandths of the speed shed per second.
    pub ship_decel_milli: u64,
    /// Ship collision radius, milli-units.
    pub ship_hit_radius: u64,
    /// Ship turn rate, degrees per second.
    pub ship_turn_speed: u32,
    /// Lifetime of a ship bullet, milliseconds.
    pub ship_bullet_timer_limit: u32,
    /// Speed of a ship bullet, milli-units/s.
    pub ship_bullet_speed: u64,
    /// Delay between ship shots, milliseconds.
    pub bullet_cooldown: u32,
    /// Collision radius of every bullet, milli-units.
    pub bullet_radius: u64,
    /// Collision radius of a big alien, milli-units.
    pub alien_hit_radius_big: u64,
    /// Collision radius of a small alien, milli-units.
    pub alien_hit_radius_small: u64,
    /// Lifetime of a big alien's bullet, milliseconds.
    pub alien_bullet_timer_limit_big: u32,
    /// Lifetime of a small alien's bullet, milliseconds.
    pub alien_bullet_timer_limit_small: u32,
    /// Speed of an alien bullet, milli-units/s.
    pub alien_bullet_speed: u64,
    /// Period between alien spawns, milliseconds.
    pub alien_spawn_period: u32,
    /// Period between alien shots, milliseconds.
    pub alien_shoot_period: u32,
    /// Period between alien heading shifts, milliseconds.
    pub alien_shift_period: u32,
    /// Lower bound of an alien's random spawn speed, milli-units/s.
    pub alien_speed_min: u64,
    /// Upper bound of an alien's random spawn speed, milli-units/s.
    pub alien_speed_max: u64,
    /// How far past a horizontal edge an alien flies before it is removed,
    /// milli-units.
    pub alien_exit_margin: u64,
    /// Lifetime of the particle effect spawned for a destroyed ship or
    /// alien, milliseconds; the emitter's own duration is authoritative.
    pub ship_explosion_lifetime: u32,
    /// Lifetime of the particle effect spawned for a destroyed asteroid,
    /// milliseconds.
    pub asteroid_explosion_lifetime: u32,
    /// Delay before leaving the game-over and level-completed states,
    /// milliseconds.
    pub break_delay: u32,
    /// Per-stage asteroid sizes and speed limits; index 0 is terminal.
    pub asteroid_stages: Vec<AsteroidStage>,
    /// How many asteroids the initial field holds.
    pub asteroid_field_size: usize,
    /// Radius of the spawn exclusion zone around the ship, milli-units.
    pub asteroid_exclusion_radius: u64,
}

impl Config {
    /// Bounds under which every stage of the pipeline is free of overflow.
    pub open spec fn wf(&self) -> bool {
        &&& 0 < self.arena_width <= ARENA_CAP
        &&& 0 < self.arena_height <= ARENA_CAP
        &&& self.ship_max_speed + self.ship_accel <= SPEED_CAP
        &&& self.ship_decel_milli <= 1000
        &&& self.ship_hit_radius <= RADIUS_CAP
        &&& self.ship_turn_speed <= 100_000
        &&& 1 <= self.ship_bullet_timer_limit <= TIME_CAP
        &&& self.ship_bullet_speed <= SPEED_CAP
        &&& self.bullet_cooldown <= TIME_CAP
        &&& self.bullet_radius <= RADIUS_CAP
        &&& self.alien_hit_radius_big <= RADIUS_CAP
        &&& self.alien_hit_radius_small <= RADIUS_CAP
        &&& 1 <= self.alien_bullet_timer_limit_big <= TIME_CAP
        &&& 1 <= self.alien_bullet_timer_limit_small <= TIME_CAP
        &&& self.alien_bullet_speed <= SPEED_CAP
        &&& self.alien_spawn_period <= TIME_CAP
        &&& self.alien_shoot_period <= TIME_CAP
        &&& self.alien_shift_period <= TIME_CAP
        &&& self.alien_speed_min <= self.alien_speed_max
        &&& self.alien_speed_max <= SPEED_CAP
        &&& self.alien_exit_margin <= 1_000_000
        &&& 1 <= self.ship_explosion_lifetime <= TIME_CAP
        &&& 1 <= self.asteroid_explosion_lifetime <= TIME_CAP
        &&& self.break_delay <= TIME_CAP
        &&& 1 <= self.asteroid_stages@.len() <= 100
        &&& forall|i: int| 0 <= i < self.asteroid_stages@.len() ==> {
            &&& (#[trigger] self.asteroid_stages@[i]).max_speed <= 1_000_000
            &&& self.asteroid_stages@[i].radius <= RADIUS_CAP
        }
        &&& self.asteroid_field_size <= 1000
        &&& self.asteroid_exclusion_radius <= ARENA_CAP
    }

    /// The canonical tuning: a 432 x 240 unit arena and the timer periods,
    /// radii and speeds the game was balanced around.
    pub fn standard() -> (r: Config)
        ensures
            r.wf(),
            r.arena_width == 432_000,
            r.arena_height == 240_000,
            r.ship_max_speed == 160_000,
            r.ship_accel == 200_000,
            r.ship_decel_milli == 80,
            r.ship_hit_radius == 4_000,
            r.ship_turn_speed == 344,
            r.ship_bullet_timer_limit == 800,
            r.ship_bullet_speed == 240_000,
            r.bullet_cooldown == 300,
            r.bullet_radius == 1_200,
            r.alien_hit_radius_big == 5_500,
            r.alien_hit_radius_small == 4_400,
            r.alien_bullet_timer_limit_big == 900,
            r.alien_bullet_timer_limit_small == 1_300,
            r.alien_bullet_speed == 100_000,
            r.alien_spawn_period == 30_000,
            r.alien_shoot_period == 1_300,
            r.alien_shift_period == 1_000,
            r.alien_speed_min == 32_000,
            r.alien_speed_max == 40_000,
            r.alien_exit_margin == 4_000,
            r.ship_explosion_lifetime == 1_500,
            r.asteroid_explosion_lifetime == 650,
            r.break_delay == 2_000,
            r.asteroid_stages@.len() == 3,
            r.asteroid_stages@[0] == (AsteroidStage { max_speed: 72_000, radius: 4_800 }),
            r.asteroid_stages@[1] == (AsteroidStage { max_speed: 48_000, radius: 11_200 }),
            r.asteroid_stages@[2] == (AsteroidStage { max_speed: 24_000, radius: 16_000 }),
            r.asteroid_field_size == 5,
            r.asteroid_exclusion_radius == 72_000,
    {
        let mut stages: Vec<AsteroidStage> = Vec::new();
        stages.push(AsteroidStage { max_speed: 72_000, radius: 4_800 });
        stages.push(AsteroidStage { max_speed: 48_000, radius: 11_200 });
        stages.push(AsteroidStage { max_speed: 24_000, radius: 16_000 });
        Config {
            arena_width: 432_000,
            arena_height: 240_000,
            ship_max_speed: 160_000,
            ship_accel: 200_000,
            ship_decel_milli: 80,
            ship_hit_radius: 4_000,
            ship_turn_speed: 344,
            ship_bullet_timer_limit: 800,
            ship_bullet_speed: 240_000,
            bullet_cooldown: 300,
            bullet_radius: 1_200,
            alien_hit_radius_big: 5_500,
            alien_hit_radius_small: 4_400,
            alien_bullet_timer_limit_big: 900,
            alien_bullet_timer_limit_small: 1_300,
            alien_bullet_speed: 100_000,
            alien_spawn_period: 30_000,
            alien_shoot_period: 1_300,
            alien_shift_period: 1_000,
            alien_speed_min: 32_000,
            alien_speed_max: 40_000,
            alien_exit_margin: 4_000,
            ship_explosion_lifetime: 1_500,
            asteroid_explosion_lifetime: 650,
            break_delay: 2_000,
            asteroid_stages: stages,
            asteroid_field_size: 5,
            asteroid_exclusion_radius: 72_000,
        }
    }
}

} // verus!
