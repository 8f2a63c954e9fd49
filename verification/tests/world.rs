//! Exercises the pipeline stages on concrete worlds: timers, cleanup, the
//! state machine with its reset, AI, damage and fragmentation, spawning,
//! and whole frames end to end.

use asteroids::cfg::Config;
use asteroids::entity::{
    ActionSet, Alien, AlienDirection, AlienKind, AlienSeed, Asteroid, AsteroidCandidate,
    AsteroidSeed, Body, Bullet, GameState, Ship, Vec2,
};
use asteroids::game::Game;
use asteroids::systems;

fn no_actions() -> ActionSet {
    ActionSet {
        accelerate: false,
        turn_left: false,
        turn_right: false,
        shoot: false,
        toggle_pause: false,
        toggle_debug_info: false,
    }
}

fn far_candidates(n: usize) -> Vec<AsteroidCandidate> {
    let mut v = Vec::new();
    for i in 0..n {
        v.push(AsteroidCandidate {
            position: Vec2 { x: 10_000 + 20_000 * i as i64, y: 30_000 },
            seed: AsteroidSeed { angle: (i as u32 * 37) % 360, speed_frac_milli: 750 },
        });
    }
    v
}

fn quiet_alien_seed() -> AlienSeed {
    AlienSeed { y: 120_000, direction_roll: 0, kind_roll: 5, speed: 36_000 }
}

fn custom_alien(x: i64, y: i64, cooldown: u32, shift: u32) -> Alien {
    Alien {
        position: Vec2 { x, y },
        body: Body { radius: 5_500, angle: 0, speed: 36_000, is_hit: false },
        is_destroyed: false,
        kind: AlienKind::Big,
        direction: AlienDirection::ToRight,
        weapon_cooldown_timer: cooldown,
        shift_timer: shift,
    }
}

#[test]
fn timers_tick_down_and_floor_at_zero() {
    let cfg = Config::standard();
    let mut g = Game::new();
    g.state = GameState::LevelRunning;
    g.alien_timer = 150;
    g.break_timer = 80;
    systems::timers::update(&mut g, &cfg, 100);
    assert_eq!(g.alien_timer, 50);
    assert_eq!(g.break_timer, 0);
    systems::timers::update(&mut g, &cfg, 100);
    assert_eq!(g.alien_timer, 0);
}

#[test]
fn pause_freezes_every_timer() {
    let cfg = Config::standard();
    let mut g = Game::new();
    g.state = GameState::Pause;
    g.alien_timer = 150;
    let mut ship = Ship::new(&cfg);
    ship.weapon_cooldown_timer = 200;
    g.ship = Some(ship);
    systems::timers::update(&mut g, &cfg, 100);
    assert_eq!(g.alien_timer, 150);
    assert_eq!(g.ship.unwrap().weapon_cooldown_timer, 200);
}

#[test]
fn cleanup_removes_the_destroyed_and_expired() {
    let cfg = Config::standard();
    let mut g = Game::new();
    let mut dead = custom_alien(100_000, 100_000, 1_000, 1_000);
    dead.is_destroyed = true;
    let alive = custom_alien(200_000, 100_000, 1_000, 1_000);
    g.aliens = vec![dead, alive];
    let mut spent = Bullet::new(Vec2 { x: 50_000, y: 50_000 }, 0, None, &cfg);
    spent.life_timer = 0;
    let live = Bullet::new(Vec2 { x: 60_000, y: 50_000 }, 0, None, &cfg);
    g.bullets = vec![spent, live];
    let mut ship = Ship::new(&cfg);
    ship.is_destroyed = true;
    g.ship = Some(ship);
    systems::cleanup::update(&mut g, &cfg);
    assert_eq!(g.aliens.len(), 1);
    assert_eq!(g.aliens[0].position.x, 200_000);
    assert_eq!(g.bullets.len(), 1);
    assert_eq!(g.bullets[0].position.x, 60_000);
    assert!(g.ship.is_none());
}

#[test]
fn loading_becomes_running_once_populated() {
    let cfg = Config::standard();
    let mut g = Game::new();
    g.ship = Some(Ship::new(&cfg));
    g.asteroids = vec![Asteroid::new(
        Vec2 { x: 10_000, y: 10_000 },
        2,
        0,
        750,
        &cfg,
    )];
    systems::gamestate::update(&mut g, &cfg);
    assert_eq!(g.state, GameState::LevelRunning);
}

#[test]
fn loading_waits_for_ship_and_field() {
    let cfg = Config::standard();
    let mut g = Game::new();
    g.ship = Some(Ship::new(&cfg));
    // No asteroids yet: the machine must not move, to running or anywhere.
    systems::gamestate::update(&mut g, &cfg);
    assert_eq!(g.state, GameState::LevelLoading);
}

#[test]
fn ship_destruction_arms_game_over() {
    let cfg = Config::standard();
    let mut g = Game::new();
    g.state = GameState::LevelRunning;
    let mut ship = Ship::new(&cfg);
    ship.is_destroyed = true;
    g.ship = Some(ship);
    g.asteroids = vec![Asteroid::new(
        Vec2 { x: 10_000, y: 10_000 },
        2,
        0,
        750,
        &cfg,
    )];
    systems::gamestate::update(&mut g, &cfg);
    assert_eq!(g.state, GameState::GameOver);
    assert_eq!(g.break_timer, 2_000);
}

#[test]
fn clearing_the_level_arms_completion() {
    let cfg = Config::standard();
    let mut g = Game::new();
    g.state = GameState::LevelRunning;
    g.ship = Some(Ship::new(&cfg));
    systems::gamestate::update(&mut g, &cfg);
    assert_eq!(g.state, GameState::LevelCompleted);
    assert_eq!(g.break_timer, 2_000);
}

#[test]
fn pause_toggles_both_ways() {
    let cfg = Config::standard();
    let mut g = Game::new();
    g.state = GameState::LevelRunning;
    g.ship = Some(Ship::new(&cfg));
    g.asteroids = vec![Asteroid::new(
        Vec2 { x: 10_000, y: 10_000 },
        2,
        0,
        750,
        &cfg,
    )];
    g.player_actions = ActionSet { toggle_pause: true, ..no_actions() };
    systems::gamestate::update(&mut g, &cfg);
    assert_eq!(g.state, GameState::Pause);
    systems::gamestate::update(&mut g, &cfg);
    assert_eq!(g.state, GameState::LevelRunning);
}

#[test]
fn reset_preserves_the_alien_cadence() {
    let cfg = Config::standard();
    let mut g = Game::new();
    g.state = GameState::GameOver;
    g.break_timer = 0;
    g.alien_timer = 12_345;
    g.ship = Some(Ship::new(&cfg));
    g.aliens = vec![custom_alien(100_000, 100_000, 1_000, 1_000)];
    g.bullets = vec![Bullet::new(Vec2 { x: 50_000, y: 50_000 }, 0, None, &cfg)];
    g.asteroids = vec![Asteroid::new(
        Vec2 { x: 10_000, y: 10_000 },
        2,
        0,
        750,
        &cfg,
    )];
    systems::gamestate::update(&mut g, &cfg);
    assert_eq!(g.state, GameState::LevelLoading);
    assert_eq!(g.alien_timer, 12_345);
    assert_eq!(g.break_timer, 0);
    assert!(g.ship.is_none());
    assert!(g.aliens.is_empty());
    assert!(g.bullets.is_empty());
    assert!(g.asteroids.is_empty());
    assert!(g.explosions.is_empty());
}

#[test]
fn reset_waits_for_the_break_timer() {
    let cfg = Config::standard();
    let mut g = Game::new();
    g.state = GameState::GameOver;
    g.break_timer = 500;
    g.alien_timer = 12_345;
    systems::gamestate::update(&mut g, &cfg);
    assert_eq!(g.state, GameState::GameOver);
    assert_eq!(g.break_timer, 500);
}

#[test]
fn fragmenting_an_outer_asteroid() {
    // A stage-2 asteroid hit by a player bullet: the bullet and the parent
    // go, two stage-1 children appear at the parent's position, and exactly
    // one explosion is enqueued.
    let cfg = Config::standard();
    let mut g = Game::new();
    g.state = GameState::LevelRunning;
    let pos = Vec2 { x: 100_000, y: 100_000 };
    g.asteroids = vec![Asteroid::new(pos, 2, 0, 500, &cfg)];
    g.bullets = vec![Bullet::new(pos, 0, None, &cfg)];
    systems::collision::update(&mut g, &cfg);
    assert!(g.asteroids[0].body.is_hit);
    assert!(g.bullets[0].body.is_hit);
    let seeds = vec![
        AsteroidSeed { angle: 10, speed_frac_milli: 600 },
        AsteroidSeed { angle: 200, speed_frac_milli: 700 },
    ];
    systems::damage::update(&mut g, &cfg, &seeds);
    systems::cleanup::update(&mut g, &cfg);
    assert_eq!(g.asteroids.len(), 2);
    assert_eq!(g.asteroids[0].stage, 1);
    assert_eq!(g.asteroids[1].stage, 1);
    assert_eq!(g.asteroids[0].position, pos);
    assert_eq!(g.asteroids[1].position, pos);
    assert_eq!(g.asteroids[0].body.angle, 10);
    assert_eq!(g.asteroids[1].body.angle, 200);
    assert_eq!(g.asteroids[0].body.speed, 28_800);
    assert_eq!(g.asteroids[1].body.speed, 33_600);
    assert!(g.bullets.is_empty());
    assert_eq!(g.explosions.len(), 1);
    assert_eq!(g.explosions[0].position, pos);
    assert_eq!(g.explosions[0].body.speed, 18_000);
}

#[test]
fn terminal_asteroids_leave_no_children() {
    let cfg = Config::standard();
    let mut g = Game::new();
    g.state = GameState::LevelRunning;
    let pos = Vec2 { x: 100_000, y: 100_000 };
    g.asteroids = vec![Asteroid::new(pos, 0, 0, 500, &cfg)];
    g.bullets = vec![Bullet::new(pos, 0, None, &cfg)];
    systems::collision::update(&mut g, &cfg);
    let seeds = vec![
        AsteroidSeed { angle: 10, speed_frac_milli: 600 },
        AsteroidSeed { angle: 200, speed_frac_milli: 700 },
    ];
    systems::damage::update(&mut g, &cfg, &seeds);
    systems::cleanup::update(&mut g, &cfg);
    assert!(g.asteroids.is_empty());
    assert_eq!(g.explosions.len(), 1);
}

#[test]
fn full_throttle_saturates_just_under_the_speed_limit() {
    // Ship at rest at the arena's center, accelerate held for exactly
    // SHIP_MAX_SPEED / SHIP_ACCEL seconds (0.8 s, as eight 100 ms frames)
    // with heading fixed at 0: the speed saturates just under the limit and
    // the heading never moves.
    let cfg = Config::standard();
    let mut g = Game::new();
    g.state = GameState::LevelRunning;
    g.ship = Some(Ship::new(&cfg));
    g.player_actions = ActionSet { accelerate: true, ..no_actions() };
    for _ in 0..8 {
        systems::moving::update(&mut g, &cfg, 100);
    }
    let ship = g.ship.unwrap();
    assert!(ship.body.speed <= 160_000);
    assert_eq!(ship.body.speed, 154_349);
    assert_eq!(ship.body.angle, 0);
    assert_eq!(ship.facing_angle, 0);
    assert!(ship.has_exhaust);
}

#[test]
fn full_throttle_saturates_for_any_frame_partition() {
    // The same 0.8 s of held thrust cut into sixteen 50 ms frames and into
    // four 200 ms frames: the heading never moves and the speed still
    // saturates just under the limit, as the held-thrust law states for
    // every partition.
    let cfg = Config::standard();
    for (dt, frames, expected) in [(50u32, 16u32, 154_675u64), (200, 4, 153_703)] {
        let mut g = Game::new();
        g.state = GameState::LevelRunning;
        g.ship = Some(Ship::new(&cfg));
        g.player_actions = ActionSet { accelerate: true, ..no_actions() };
        for _ in 0..frames {
            systems::moving::update(&mut g, &cfg, dt);
        }
        let ship = g.ship.unwrap();
        assert!(ship.body.speed <= 160_000);
        assert_eq!(ship.body.speed, expected);
        assert_eq!(ship.body.angle, 0);
        assert_eq!(ship.facing_angle, 0);
    }
}

#[test]
fn turning_rotates_only_the_facing() {
    let cfg = Config::standard();
    let mut g = Game::new();
    g.state = GameState::LevelRunning;
    g.ship = Some(Ship::new(&cfg));
    g.player_actions = ActionSet { turn_right: true, ..no_actions() };
    systems::moving::update(&mut g, &cfg, 500);
    let ship = g.ship.unwrap();
    // 344 degrees per second for half a second.
    assert_eq!(ship.facing_angle, 172);
    assert_eq!(ship.body.angle, 0);
    assert_eq!(ship.body.speed, 0);
}

#[test]
fn alien_shoots_at_the_ship() {
    let cfg = Config::standard();
    let mut g = Game::new();
    g.state = GameState::LevelRunning;
    let mut ship = Ship::new(&cfg);
    ship.position = Vec2 { x: 200_000, y: 100_000 };
    g.ship = Some(ship);
    g.aliens = vec![custom_alien(100_000, 100_000, 0, 500)];
    let rolls = vec![0u32];
    systems::ai::update(&mut g, &cfg, &rolls);
    assert_eq!(g.bullets.len(), 1);
    let b = &g.bullets[0];
    assert!(b.from_enemy);
    assert_eq!(b.body.angle, 0);
    // Spawned half the alien's hit radius ahead of its center.
    assert_eq!(b.position, Vec2 { x: 102_750, y: 100_000 });
    assert_eq!(b.life_timer, 900);
    assert_eq!(b.body.speed, 100_000);
    assert_eq!(g.aliens[0].weapon_cooldown_timer, 1_300);
}

#[test]
fn alien_shift_is_clamped_around_home() {
    let cfg = Config::standard();
    let mut g = Game::new();
    g.state = GameState::LevelRunning;
    // Shift roll 0 stands for two quarter-steps backward: minus 90 degrees,
    // clamped to 45 degrees around the home angle 0, so the heading lands
    // at 315.
    g.aliens = vec![custom_alien(100_000, 100_000, 1_000, 0)];
    let rolls = vec![0u32];
    systems::ai::update(&mut g, &cfg, &rolls);
    assert_eq!(g.aliens[0].body.angle, 315);
    assert_eq!(g.aliens[0].shift_timer, 1_000);
}

#[test]
fn alien_exits_past_the_margin() {
    let cfg = Config::standard();
    let mut g = Game::new();
    g.state = GameState::LevelRunning;
    g.aliens = vec![
        custom_alien(-5_000, 100_000, 1_000, 1_000),
        custom_alien(100_000, 100_000, 1_000, 1_000),
        custom_alien(437_000, 100_000, 1_000, 1_000),
    ];
    let rolls = vec![1u32, 1, 1];
    systems::ai::update(&mut g, &cfg, &rolls);
    assert!(g.aliens[0].is_destroyed);
    assert!(!g.aliens[1].is_destroyed);
    assert!(g.aliens[2].is_destroyed);
}

#[test]
fn loading_spawns_the_ship_and_the_field() {
    let cfg = Config::standard();
    let mut g = Game::new();
    let cands = far_candidates(5);
    systems::spawn::update(&mut g, &cfg, &cands, &quiet_alien_seed());
    let ship = g.ship.unwrap();
    assert_eq!(ship.position, Vec2 { x: 216_000, y: 120_000 });
    assert_eq!(g.asteroids.len(), 5);
    for (i, a) in g.asteroids.iter().enumerate() {
        assert_eq!(a.stage, 2);
        assert_eq!(a.position, cands[i].position);
        assert_eq!(a.body.radius, 16_000);
    }
}

#[test]
fn field_spawn_rejects_spots_near_the_ship() {
    let cfg = Config::standard();
    let mut g = Game::new();
    let mut cands = far_candidates(6);
    // Plant the first candidate on the ship: it must be skipped and the
    // remaining five used instead.
    cands[0].position = Vec2 { x: 216_000, y: 120_000 };
    let expected: Vec<Vec2> = cands[1..].iter().map(|c| c.position).collect();
    systems::spawn::update(&mut g, &cfg, &cands, &quiet_alien_seed());
    assert_eq!(g.asteroids.len(), 5);
    for (i, a) in g.asteroids.iter().enumerate() {
        assert_eq!(a.position, expected[i]);
    }
}

#[test]
fn running_fires_and_spawns_on_the_timers() {
    let cfg = Config::standard();
    let mut g = Game::new();
    g.state = GameState::LevelRunning;
    g.ship = Some(Ship::new(&cfg));
    g.alien_timer = 0;
    g.player_actions = ActionSet { shoot: true, ..no_actions() };
    let seed = AlienSeed { y: 120_000, direction_roll: 1, kind_roll: 2, speed: 33_000 };
    systems::spawn::update(&mut g, &cfg, &far_candidates(5), &seed);
    // The ship's shot: one hit radius ahead, on cooldown afterward.
    assert_eq!(g.bullets.len(), 1);
    assert_eq!(g.bullets[0].position, Vec2 { x: 220_000, y: 120_000 });
    assert!(!g.bullets[0].from_enemy);
    assert_eq!(g.bullets[0].life_timer, 800);
    assert_eq!(g.ship.unwrap().weapon_cooldown_timer, 300);
    // The periodic alien: entering leftward from the right edge, small kind.
    assert_eq!(g.alien_timer, 30_000);
    assert_eq!(g.aliens.len(), 1);
    let a = &g.aliens[0];
    assert_eq!(a.position, Vec2 { x: 432_000, y: 120_000 });
    assert_eq!(a.body.angle, 180);
    assert_eq!(a.kind, AlienKind::Small);
    assert_eq!(a.body.radius, 4_400);
    assert_eq!(a.weapon_cooldown_timer, 1_300);
}

#[test]
fn cooldown_gates_the_ship_fire() {
    let cfg = Config::standard();
    let mut g = Game::new();
    g.state = GameState::LevelRunning;
    let mut ship = Ship::new(&cfg);
    ship.weapon_cooldown_timer = 100;
    g.ship = Some(ship);
    g.alien_timer = 5_000;
    g.player_actions = ActionSet { shoot: true, ..no_actions() };
    systems::spawn::update(&mut g, &cfg, &far_candidates(5), &quiet_alien_seed());
    assert!(g.bullets.is_empty());
}

#[test]
fn enemy_fire_ends_the_game() {
    let cfg = Config::standard();
    let mut g = Game::new();
    g.state = GameState::LevelRunning;
    let ship = Ship::new(&cfg);
    let ship_pos = ship.position;
    g.ship = Some(ship);
    g.asteroids = vec![Asteroid::new(
        Vec2 { x: 10_000, y: 10_000 },
        2,
        0,
        750,
        &cfg,
    )];
    g.bullets = vec![Bullet::new(ship_pos, 180, Some(AlienKind::Big), &cfg)];
    systems::collision::update(&mut g, &cfg);
    assert!(g.ship.as_ref().unwrap().body.is_hit);
    let seeds = vec![AsteroidSeed { angle: 0, speed_frac_milli: 500 }; 2];
    systems::damage::update(&mut g, &cfg, &seeds);
    assert!(g.ship.as_ref().unwrap().is_destroyed);
    assert_eq!(g.explosions.len(), 1);
    assert_eq!(g.explosions[0].position, ship_pos);
    assert_eq!(g.explosions[0].body.speed, 0);
    assert_eq!(g.explosions[0].life_timer, 1_500);
    systems::gamestate::update(&mut g, &cfg);
    assert_eq!(g.state, GameState::GameOver);
    assert_eq!(g.break_timer, 2_000);
    systems::cleanup::update(&mut g, &cfg);
    assert!(g.ship.is_none());
}

#[test]
fn same_origin_fire_never_collides() {
    let cfg = Config::standard();
    let mut g = Game::new();
    g.state = GameState::LevelRunning;
    let pos = Vec2 { x: 100_000, y: 100_000 };
    g.bullets = vec![
        Bullet::new(pos, 0, None, &cfg),
        Bullet::new(pos, 90, None, &cfg),
    ];
    systems::collision::update(&mut g, &cfg);
    assert!(!g.bullets[0].body.is_hit);
    assert!(!g.bullets[1].body.is_hit);
    // Opposite origins at the same spot do collide.
    g.bullets = vec![
        Bullet::new(pos, 0, None, &cfg),
        Bullet::new(pos, 90, Some(AlienKind::Small), &cfg),
    ];
    systems::collision::update(&mut g, &cfg);
    assert!(g.bullets[0].body.is_hit);
    assert!(g.bullets[1].body.is_hit);
}

#[test]
fn bullets_expire_after_their_lifetime() {
    let cfg = Config::standard();
    let mut g = Game::new();
    g.state = GameState::LevelRunning;
    g.bullets = vec![Bullet::new(Vec2 { x: 50_000, y: 50_000 }, 0, None, &cfg)];
    assert_eq!(g.bullets[0].life_timer, 800);
    for _ in 0..8 {
        systems::timers::update(&mut g, &cfg, 100);
    }
    assert_eq!(g.bullets[0].life_timer, 0);
    systems::cleanup::update(&mut g, &cfg);
    assert!(g.bullets.is_empty());
}

#[test]
fn alien_timers_tick_together() {
    let cfg = Config::standard();
    let mut g = Game::new();
    g.state = GameState::LevelRunning;
    g.aliens = vec![custom_alien(100_000, 100_000, 1_300, 700)];
    systems::timers::update(&mut g, &cfg, 1_000);
    assert_eq!(g.aliens[0].weapon_cooldown_timer, 300);
    assert_eq!(g.aliens[0].shift_timer, 0);
}

#[test]
fn frames_load_and_then_run() {
    let cfg = Config::standard();
    let mut g = Game::new();
    g.alien_timer = 30_000;
    let rolls: Vec<u32> = Vec::new();
    let frags: Vec<AsteroidSeed> = Vec::new();
    let cands = far_candidates(5);
    let seed = quiet_alien_seed();
    // First frame: still loading; spawn populates the world at its end.
    g.frame(&cfg, 16, &rolls, &frags, &cands, &seed);
    assert_eq!(g.state, GameState::LevelLoading);
    assert!(g.ship.is_some());
    assert_eq!(g.asteroids.len(), 5);
    // Second frame: the state machine sees the populated world.
    let frags2 = vec![AsteroidSeed { angle: 0, speed_frac_milli: 500 }; 10];
    g.frame(&cfg, 16, &rolls, &frags2, &cands, &seed);
    assert_eq!(g.state, GameState::LevelRunning);
    // Wraparound held: every asteroid is inside the arena.
    for a in &g.asteroids {
        assert!(0 <= a.position.x && a.position.x < 432_000);
        assert!(0 <= a.position.y && a.position.y < 240_000);
    }
}
