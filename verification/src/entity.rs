//! The data model: the shared body and position components and the five
//! entity kinds (ship, bullet, asteroid, alien, explosion), each with its
//! well-formedness predicate and an exactly specified constructor.
//!
//! Entities carry only simulation state; sprites, colors and particle
//! emitters are presentation and live with the renderer.

use crate::cfg::{Config, ALIEN_X_SLACK, RADIUS_CAP, SPEED_CAP, TIME_CAP};
use vstd::arithmetic::div_mod::lemma_div_is_ordered;
use vstd::prelude::*;

verus! {

/// A point of arena space, in milli-units.
#[derive(Clone, Copy, PartialEq, Eq, Structural, Debug)]
pub struct Vec2 {
    pub x: i64,
    pub y: i64,
}

impl Vec2 {
    /// Within the wrapped arena rectangle.
    pub open spec fn in_arena(self, cfg: &Config) -> bool {
        &&& 0 <= self.x < cfg.arena_width
        &&& 0 <= self.y < cfg.arena_height
    }
}

/// Physical attributes shared by every moving entity: collision radius
/// (milli-units), heading (degrees), scalar speed (milli-units per second)
/// and the per-frame hit flag set during collision and consumed by damage.
#[derive(Clone, Copy, PartialEq, Eq, Structural, Debug)]
pub struct Body {
    pub radius: u64,
    pub angle: u32,
    pub speed: u64,
    pub is_hit: bool,
}

impl Body {
    /// Bounds every stage relies on for overflow-free arithmetic.
    pub open spec fn wf(self) -> bool {
        &&& self.angle < 360
        &&& self.speed <= SPEED_CAP
        &&& self.radius <= RADIUS_CAP
    }
}

impl Default for Body {
    /// A zero-size body at rest, heading 0, not hit.
    fn default() -> (r: Body)
        ensures
            r == (Body { radius: 0, angle: 0, speed: 0, is_hit: false }),
    {
        Body { radius: 0, angle: 0, speed: 0, is_hit: false }
    }
}

/// Which horizontal edge an alien entered from; fixes its exit edge and the
/// home angle its wandering is clamped around.
#[derive(Clone, Copy, PartialEq, Eq, Structural, Debug)]
pub enum AlienDirection {
    ToRight,
    ToLeft,
}

impl AlienDirection {
    /// Home heading of the drift: 0 degrees for a rightward crossing (entry
    /// at the left edge), 180 degrees for a leftward one.
    pub open spec fn home_angle(self) -> int {
        match self {
            AlienDirection::ToRight => 0,
            AlienDirection::ToLeft => 180,
        }
    }
}

/// Alien size class; fixes hit radius and bullet lifetime.
#[derive(Clone, Copy, PartialEq, Eq, Structural, Debug)]
pub enum AlienKind {
    Big,
    Small,
}

/// The finite game-state machine's states.
#[derive(Clone, Copy, PartialEq, Eq, Structural, Debug)]
pub enum GameState {
    LevelLoading,
    LevelRunning,
    LevelCompleted,
    Pause,
    GameOver,
}

impl Default for GameState {
    /// A fresh world starts loading its level.
    fn default() -> (r: GameState)
        ensures
            r == GameState::LevelLoading,
    {
        GameState::LevelLoading
    }
}

/// A discrete, already-debounced player intent for the current frame.
#[derive(Clone, Copy, PartialEq, Eq, Structural, Debug)]
pub enum Action {
    Accelerate,
    TurnLeft,
    TurnRight,
    Shoot,
    TogglePause,
    ToggleDebugInfo,
}

/// The set of actions active this frame, recomputed by the input
/// collaborator every frame and read-only for the pipeline.
#[derive(Clone, Copy, PartialEq, Eq, Structural, Debug)]
pub struct ActionSet {
    pub accelerate: bool,
    pub turn_left: bool,
    pub turn_right: bool,
    pub shoot: bool,
    pub toggle_pause: bool,
    pub toggle_debug_info: bool,
}

impl ActionSet {
    /// Membership of one action in the set.
    pub open spec fn spec_contains(self, a: Action) -> bool {
        match a {
            Action::Accelerate => self.accelerate,
            Action::TurnLeft => self.turn_left,
            Action::TurnRight => self.turn_right,
            Action::Shoot => self.shoot,
            Action::TogglePause => self.toggle_pause,
            Action::ToggleDebugInfo => self.toggle_debug_info,
        }
    }

    /// Membership of one action in the set.
    pub fn contains(&self, a: Action) -> (r: bool)
        ensures
            r == self.spec_contains(a),
    {
        match a {
            Action::Accelerate => self.accelerate,
            Action::TurnLeft => self.turn_left,
            Action::TurnRight => self.turn_right,
            Action::Shoot => self.shoot,
            Action::TogglePause => self.toggle_pause,
            Action::ToggleDebugInfo => self.toggle_debug_info,
        }
    }

    /// The empty set: no player intent.
    pub fn none() -> (r: ActionSet)
        ensures
            forall|a: Action| !r.spec_contains(a),
            r == (ActionSet {
                accelerate: false,
                turn_left: false,
                turn_right: false,
                shoot: false,
                toggle_pause: false,
                toggle_debug_info: false,
            }),
    {
        ActionSet {
            accelerate: false,
            turn_left: false,
            turn_right: false,
            shoot: false,
            toggle_pause: false,
            toggle_debug_info: false,
        }
    }
}

/// The player's ship; at most one exists, absence means no player in play.
/// `facing_angle` is where the nose points (and thrust pulls), independent
/// of `body.angle`, the direction of travel.
#[derive(Clone, Copy, PartialEq, Eq, Structural, Debug)]
pub struct Ship {
    pub position: Vec2,
    pub facing_angle: u32,
    pub body: Body,
    pub has_exhaust: bool,
    pub is_destroyed: bool,
    pub weapon_cooldown_timer: u32,
}

impl Ship {
    pub open spec fn wf(self, cfg: &Config) -> bool {
        &&& self.body.wf()
        &&& self.facing_angle < 360
        &&& self.position.in_arena(cfg)
        &&& self.weapon_cooldown_timer <= TIME_CAP
    }

    /// A fresh ship at rest in the arena's center, facing right.
    pub open spec fn spec_new(cfg: &Config) -> Ship {
        Ship {
            position: Vec2 {
                x: (cfg.arena_width as int / 2) as i64,
                y: (cfg.arena_height as int / 2) as i64,
            },
            facing_angle: 0,
            body: Body { radius: cfg.ship_hit_radius, angle: 0, speed: 0, is_hit: false },
            has_exhaust: false,
            is_destroyed: false,
            weapon_cooldown_timer: 0,
        }
    }

    /// A fresh ship at rest in the arena's center, facing right.
    pub fn new(cfg: &Config) -> (r: Ship)
        requires
            cfg.wf(),
        ensures
            r == Ship::spec_new(cfg),
            r.position.x == cfg.arena_width as int / 2,
            r.position.y == cfg.arena_height as int / 2,
            r.facing_angle == 0,
            r.body == (Body {
                radius: cfg.ship_hit_radius,
                angle: 0,
                speed: 0,
                is_hit: false,
            }),
            !r.has_exhaust,
            !r.is_destroyed,
            r.weapon_cooldown_timer == 0,
            r.wf(cfg),
    {
        proof {
            lemma_div_is_ordered(cfg.arena_width as int, 2 * cfg.arena_width as int, 2);
            vstd::arithmetic::div_mod::lemma_div_by_multiple(cfg.arena_width as int, 2);
            lemma_div_is_ordered(cfg.arena_height as int, 2 * cfg.arena_height as int, 2);
            vstd::arithmetic::div_mod::lemma_div_by_multiple(cfg.arena_height as int, 2);
        }
        Ship {
            position: Vec2 {
                x: (cfg.arena_width / 2) as i64,
                y: (cfg.arena_height / 2) as i64,
            },
            facing_angle: 0,
            body: Body { radius: cfg.ship_hit_radius, angle: 0, speed: 0, is_hit: false },
            has_exhaust: false,
            is_destroyed: false,
            weapon_cooldown_timer: 0,
        }
    }
}

/// A projectile; `from_enemy` partitions bullets into the two disjoint
/// collision domains of alien fire and ship fire.
#[derive(Clone, Copy, PartialEq, Eq, Structural, Debug)]
pub struct Bullet {
    pub position: Vec2,
    pub body: Body,
    pub life_timer: u32,
    pub from_enemy: bool,
}

impl Bullet {
    pub open spec fn wf(self, cfg: &Config) -> bool {
        &&& self.body.wf()
        &&& self.position.in_arena(cfg)
        &&& self.life_timer <= TIME_CAP
    }

    /// A bullet fired from `position` along `angle`; alien fire (with the
    /// firing alien's kind) gets the alien speed and per-kind lifetime,
    /// ship fire the ship bullet speed and lifetime.
    pub open spec fn spec_new(
        position: Vec2,
        angle: u32,
        alien_kind: Option<AlienKind>,
        cfg: &Config,
    ) -> Bullet {
        Bullet {
            position,
            body: Body {
                radius: cfg.bullet_radius,
                angle,
                speed: match alien_kind {
                    Some(_) => cfg.alien_bullet_speed,
                    None => cfg.ship_bullet_speed,
                },
                is_hit: false,
            },
            life_timer: match alien_kind {
                Some(AlienKind::Big) => cfg.alien_bullet_timer_limit_big,
                Some(AlienKind::Small) => cfg.alien_bullet_timer_limit_small,
                None => cfg.ship_bullet_timer_limit,
            },
            from_enemy: alien_kind is Some,
        }
    }

    /// A bullet fired from `position` along `angle`; alien fire (with the
    /// firing alien's kind) gets the alien speed and per-kind lifetime,
    /// ship fire the ship bullet speed and lifetime.
    pub fn new(position: Vec2, angle: u32, alien_kind: Option<AlienKind>, cfg: &Config) -> (r:
        Bullet)
        requires
            cfg.wf(),
            angle < 360,
            position.in_arena(cfg),
        ensures
            r == Bullet::spec_new(position, angle, alien_kind, cfg),
            r.position == position,
            r.body.radius == cfg.bullet_radius,
            r.body.angle == angle,
            !r.body.is_hit,
            r.body.speed == (match alien_kind {
                Some(_) => cfg.alien_bullet_speed,
                None => cfg.ship_bullet_speed,
            }),
            r.life_timer == (match alien_kind {
                Some(AlienKind::Big) => cfg.alien_bullet_timer_limit_big,
                Some(AlienKind::Small) => cfg.alien_bullet_timer_limit_small,
                None => cfg.ship_bullet_timer_limit,
            }),
            r.from_enemy == alien_kind.is_some(),
            r.wf(cfg),
    {
        let (speed, life_timer): (u64, u32) = match alien_kind {
            Some(AlienKind::Big) => (cfg.alien_bullet_speed, cfg.alien_bullet_timer_limit_big),
            Some(AlienKind::Small) => (cfg.alien_bullet_speed, cfg.alien_bullet_timer_limit_small),
            None => (cfg.ship_bullet_speed, cfg.ship_bullet_timer_limit),
        };
        Bullet {
            position,
            body: Body { radius: cfg.bullet_radius, angle, speed, is_hit: false },
            life_timer,
            from_enemy: alien_kind.is_some(),
        }
    }
}

/// A fragmenting rock. `stage` indexes the configuration's stage table;
/// destruction of a stage above 0 spawns two children one stage down.
#[derive(Clone, Copy, PartialEq, Eq, Structural, Debug)]
pub struct Asteroid {
    pub position: Vec2,
    pub body: Body,
    pub is_destroyed: bool,
    pub stage: usize,
}

impl Asteroid {
    pub open spec fn wf(self, cfg: &Config) -> bool {
        &&& self.body.wf()
        &&& self.body.speed <= 1_000_000
        &&& self.position.in_arena(cfg)
        &&& self.stage < cfg.asteroid_stages@.len()
    }

    /// An asteroid of the given stage: radius from the stage table, heading
    /// as drawn by the caller, speed the drawn fraction (in thousandths,
    /// between a half and the whole) of the stage's maximum.
    pub open spec fn spec_new(
        position: Vec2,
        stage: int,
        heading: u32,
        speed_frac_milli: u64,
        cfg: &Config,
    ) -> Asteroid {
        Asteroid {
            position,
            body: Body {
                radius: cfg.asteroid_stages@[stage].radius,
                angle: heading,
                speed: (cfg.asteroid_stages@[stage].max_speed * speed_frac_milli / 1000) as u64,
                is_hit: false,
            },
            is_destroyed: false,
            stage: stage as usize,
        }
    }

    /// An asteroid of the given stage: radius from the stage table, heading
    /// as drawn by the caller, speed the drawn fraction (in thousandths,
    /// between a half and the whole) of the stage's maximum.
    pub fn new(position: Vec2, stage: usize, heading: u32, speed_frac_milli: u64, cfg: &Config)
        -> (r: Asteroid)
        requires
            cfg.wf(),
            stage < cfg.asteroid_stages@.len(),
            heading < 360,
            500 <= speed_frac_milli <= 1000,
            position.in_arena(cfg),
        ensures
            r == Asteroid::spec_new(position, stage as int, heading, speed_frac_milli, cfg),
            r.position == position,
            r.stage == stage,
            r.body.radius == cfg.asteroid_stages@[stage as int].radius,
            r.body.angle == heading,
            r.body.speed == cfg.asteroid_stages@[stage as int].max_speed * speed_frac_milli
                / 1000,
            !r.body.is_hit,
            !r.is_destroyed,
            r.wf(cfg),
    {
        let st = cfg.asteroid_stages[stage];
        proof {
            assert(st.max_speed * speed_frac_milli <= st.max_speed * 1000) by (nonlinear_arith)
                requires
                    speed_frac_milli <= 1000,
                    st.max_speed >= 0,
            ;
            lemma_div_is_ordered(
                st.max_speed * speed_frac_milli,
                st.max_speed * 1000,
                1000,
            );
            vstd::arithmetic::div_mod::lemma_div_by_multiple(st.max_speed as int, 1000);
        }
        let speed: u64 = st.max_speed * speed_frac_milli / 1000;
        Asteroid {
            position,
            body: Body { radius: st.radius, angle: heading, speed, is_hit: false },
            is_destroyed: false,
            stage,
        }
    }
}

/// The caller-drawn randomness one asteroid consumes at construction: a
/// uniform heading and a uniform speed fraction (in thousandths, between a
/// half and the whole) of its stage's maximum.
#[derive(Clone, Copy, PartialEq, Eq, Structural, Debug)]
pub struct AsteroidSeed {
    pub angle: u32,
    pub speed_frac_milli: u64,
}

impl AsteroidSeed {
    pub open spec fn wf(self) -> bool {
        &&& self.angle < 360
        &&& 500 <= self.speed_frac_milli <= 1000
    }
}

/// A caller-proposed spot (with construction randomness) for one asteroid
/// of the initial field.
#[derive(Clone, Copy, PartialEq, Eq, Structural, Debug)]
pub struct AsteroidCandidate {
    pub position: Vec2,
    pub seed: AsteroidSeed,
}

impl AsteroidCandidate {
    pub open spec fn wf(self, cfg: &Config) -> bool {
        &&& self.position.in_arena(cfg)
        &&& self.seed.wf()
    }
}

/// The caller-drawn randomness one alien consumes at construction: its
/// entry height, the roll picking its entry edge, the roll picking its
/// size class, and its speed.
#[derive(Clone, Copy, PartialEq, Eq, Structural, Debug)]
pub struct AlienSeed {
    pub y: i64,
    pub direction_roll: u32,
    pub kind_roll: u32,
    pub speed: u64,
}

impl AlienSeed {
    pub open spec fn wf(self, cfg: &Config) -> bool {
        &&& 0 <= self.y < cfg.arena_height
        &&& self.direction_roll < 2
        &&& self.kind_roll < 10
        &&& cfg.alien_speed_min <= self.speed <= cfg.alien_speed_max
    }
}

/// An enemy saucer drifting across the arena, wandering around its home
/// heading, shooting at the ship, and leaving by the far horizontal edge.
#[derive(Clone, Copy, PartialEq, Eq, Structural, Debug)]
pub struct Alien {
    pub position: Vec2,
    pub body: Body,
    pub is_destroyed: bool,
    pub kind: AlienKind,
    pub direction: AlienDirection,
    pub weapon_cooldown_timer: u32,
    pub shift_timer: u32,
}

/// The alien's wandering stays within 45 degrees of its home heading.
pub open spec fn angle_near_home(angle: int, direction: AlienDirection) -> bool {
    match direction {
        AlienDirection::ToRight => angle <= 45 || angle >= 315,
        AlienDirection::ToLeft => 135 <= angle <= 225,
    }
}

impl Alien {
    pub open spec fn wf(self, cfg: &Config) -> bool {
        &&& self.body.wf()
        &&& 0 <= self.position.y < cfg.arena_height
        &&& -ALIEN_X_SLACK <= self.position.x <= cfg.arena_width + ALIEN_X_SLACK
        &&& angle_near_home(self.body.angle as int, self.direction)
        &&& self.weapon_cooldown_timer <= TIME_CAP
        &&& self.shift_timer <= TIME_CAP
    }

    /// An alien entering at a horizontal edge: the direction roll picks the
    /// edge (and with it the home heading), the kind roll makes three in ten
    /// small, and `y` and `speed` are the caller's draws. The shoot timer
    /// starts full, the shift timer expired.
    pub open spec fn spec_new(
        y: i64,
        direction_roll: u32,
        kind_roll: u32,
        speed: u64,
        cfg: &Config,
    ) -> Alien {
        let direction = if direction_roll == 0 {
            AlienDirection::ToRight
        } else {
            AlienDirection::ToLeft
        };
        let kind = if kind_roll < 3 {
            AlienKind::Small
        } else {
            AlienKind::Big
        };
        Alien {
            position: Vec2 {
                x: if direction_roll == 0 {
                    0
                } else {
                    cfg.arena_width as i64
                },
                y,
            },
            body: Body {
                radius: match kind {
                    AlienKind::Big => cfg.alien_hit_radius_big,
                    AlienKind::Small => cfg.alien_hit_radius_small,
                },
                angle: direction.home_angle() as u32,
                speed,
                is_hit: false,
            },
            is_destroyed: false,
            kind,
            direction,
            weapon_cooldown_timer: cfg.alien_shoot_period,
            shift_timer: 0,
        }
    }

    /// An alien entering at a horizontal edge: the direction roll picks the
    /// edge (and with it the home heading), the kind roll makes three in ten
    /// small, and `y` and `speed` are the caller's draws. The shoot timer
    /// starts full, the shift timer expired.
    pub fn new(y: i64, direction_roll: u32, kind_roll: u32, speed: u64, cfg: &Config) -> (r:
        Alien)
        requires
            cfg.wf(),
            0 <= y < cfg.arena_height,
            direction_roll < 2,
            kind_roll < 10,
            cfg.alien_speed_min <= speed <= cfg.alien_speed_max,
        ensures
            r == Alien::spec_new(y, direction_roll, kind_roll, speed, cfg),
            r.direction == (if direction_roll == 0 {
                AlienDirection::ToRight
            } else {
                AlienDirection::ToLeft
            }),
            r.position.x == (if direction_roll == 0 {
                0int
            } else {
                cfg.arena_width as int
            }),
            r.position.y == y,
            r.kind == (if kind_roll < 3 {
                AlienKind::Small
            } else {
                AlienKind::Big
            }),
            r.body.radius == (match r.kind {
                AlienKind::Big => cfg.alien_hit_radius_big,
                AlienKind::Small => cfg.alien_hit_radius_small,
            }),
            r.body.angle == r.direction.home_angle(),
            r.body.speed == speed,
            !r.body.is_hit,
            !r.is_destroyed,
            r.weapon_cooldown_timer == cfg.alien_shoot_period,
            r.shift_timer == 0,
            r.wf(cfg),
    {
        let direction = if direction_roll == 0 {
            AlienDirection::ToRight
        } else {
            AlienDirection::ToLeft
        };
        let (x, angle): (i64, u32) = match direction {
            AlienDirection::ToRight => (0, 0),
            AlienDirection::ToLeft => (cfg.arena_width as i64, 180),
        };
        let kind = if kind_roll < 3 {
            AlienKind::Small
        } else {
            AlienKind::Big
        };
        let radius = match kind {
            AlienKind::Big => cfg.alien_hit_radius_big,
            AlienKind::Small => cfg.alien_hit_radius_small,
        };
        Alien {
            position: Vec2 { x, y },
            body: Body { radius, angle, speed, is_hit: false },
            is_destroyed: false,
            kind,
            direction,
            weapon_cooldown_timer: cfg.alien_shoot_period,
            shift_timer: 0,
        }
    }
}

/// The drifting particle effect left by a destroyed entity; visual and
/// kinematic only, it collides with nothing. The emitter handle itself is
/// presentation; the core tracks position, drift and remaining lifetime.
#[derive(Clone, Copy, PartialEq, Eq, Structural, Debug)]
pub struct Explosion {
    pub position: Vec2,
    pub body: Body,
    pub life_timer: u32,
}

impl Explosion {
    /// An explosion inherits the position of the entity that died, so, like
    /// an alien, it may lie a little beyond a horizontal edge until the next
    /// movement wraps it.
    pub open spec fn wf(self, cfg: &Config) -> bool {
        &&& self.body.wf()
        &&& 0 <= self.position.y < cfg.arena_height
        &&& -ALIEN_X_SLACK <= self.position.x <= cfg.arena_width + ALIEN_X_SLACK
        &&& self.life_timer <= TIME_CAP
    }
}

} // verus!
