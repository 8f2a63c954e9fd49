//! Spawn stage. While a level loads it ensures exactly one ship at the
//! arena's center and fills the asteroid field to its configured size from
//! the caller's uniformly drawn candidates, rejecting spots inside the
//! exclusion zone around the ship. The rejection loop is bounded by the
//! candidate list: once only as many candidates remain as asteroids are
//! still needed, every remaining candidate is accepted, so the fill always
//! terminates and the zone is only best effort (an unbounded rejection loop
//! would be merely probabilistically live). While the level runs it fires a
//! player bullet on the shoot action when the ship's cooldown has elapsed,
//! and spawns one alien when the world's alien timer reaches zero.

use crate::cfg::Config;
use crate::entity::{
    Action, Alien, AlienSeed, Asteroid, AsteroidCandidate, Bullet, GameState, Ship, Vec2,
};
use crate::game::Game;
use crate::systems::moving::{offset_pos, offset_position};
use vstd::prelude::*;

verus! {

/// Outside the exclusion zone: strictly farther from the ship's position
/// than the exclusion radius.
pub open spec fn far_enough(p: Vec2, ship_pos: Vec2, excl: int) -> bool {
    let dx = p.x - ship_pos.x;
    let dy = p.y - ship_pos.y;
    dx * dx + dy * dy > excl * excl
}

/// The asteroids the field fill places: candidates are taken in order and
/// accepted outside the exclusion zone — or unconditionally once only as
/// many candidates remain as asteroids are still needed — until `need` are
/// placed.
pub open spec fn placed(
    cands: Seq<AsteroidCandidate>,
    ship_pos: Vec2,
    need: nat,
    stage: int,
    cfg: &Config,
) -> Seq<Asteroid>
    decreases cands.len(),
{
    if need == 0 || cands.len() == 0 {
        Seq::empty()
    } else {
        let c = cands[0];
        let rest = cands.skip(1);
        if far_enough(c.position, ship_pos, cfg.asteroid_exclusion_radius as int) || cands.len()
            <= need {
            seq![
                Asteroid::spec_new(c.position, stage, c.seed.angle, c.seed.speed_frac_milli, cfg),
            ] + placed(rest, ship_pos, (need - 1) as nat, stage, cfg)
        } else {
            placed(rest, ship_pos, need, stage, cfg)
        }
    }
}

/// With at least `need` candidates, the fill places exactly `need`
/// asteroids, all of them well-formed at the given stage.
pub proof fn lemma_placed_len(
    cands: Seq<AsteroidCandidate>,
    ship_pos: Vec2,
    need: nat,
    stage: int,
    cfg: &Config,
)
    requires
        cfg.wf(),
        0 <= stage < cfg.asteroid_stages@.len(),
        cands.len() >= need,
        forall|i: int| 0 <= i < cands.len() ==> (#[trigger] cands[i]).wf(cfg),
    ensures
        placed(cands, ship_pos, need, stage, cfg).len() == need,
        forall|i: int| 0 <= i < need ==> (#[trigger] placed(cands, ship_pos, need, stage, cfg)[
            i
        ]).wf(cfg),
        forall|i: int| 0 <= i < need ==> !(#[trigger] placed(cands, ship_pos, need, stage, cfg)[
            i
        ]).is_destroyed && !placed(cands, ship_pos, need, stage, cfg)[i].body.is_hit,
    decreases cands.len(),
{
    if need == 0 || cands.len() == 0 {
    } else {
        let c = cands[0];
        let rest = cands.skip(1);
        assert(forall|i: int| 0 <= i < rest.len() ==> rest[i] == cands[i + 1]);
        let st = cfg.asteroid_stages@[stage];
        assert(st.max_speed * c.seed.speed_frac_milli <= st.max_speed * 1000 && st.max_speed
            * 1000 <= 1_000_000_000) by (nonlinear_arith)
            requires
                0 <= st.max_speed <= 1_000_000,
                0 <= c.seed.speed_frac_milli <= 1000,
        ;
        vstd::arithmetic::div_mod::lemma_div_is_ordered(
            st.max_speed * c.seed.speed_frac_milli,
            st.max_speed * 1000,
            1000,
        );
        vstd::arithmetic::div_mod::lemma_div_by_multiple(st.max_speed as int, 1000);
        vstd::arithmetic::div_mod::lemma_div_pos_is_pos(
            st.max_speed * c.seed.speed_frac_milli,
            1000,
        );
        if far_enough(c.position, ship_pos, cfg.asteroid_exclusion_radius as int) || cands.len()
            <= need {
            lemma_placed_len(rest, ship_pos, (need - 1) as nat, stage, cfg);
        } else {
            lemma_placed_len(rest, ship_pos, need, stage, cfg);
        }
    }
}

/// Whether a candidate spot lies inside the exclusion zone around the ship.
fn is_too_close(p: Vec2, ship_pos: Vec2, excl: u64) -> (r: bool)
    requires
        -1_000_000_000 <= p.x <= 1_000_000_000,
        -1_000_000_000 <= p.y <= 1_000_000_000,
        -1_000_000_000 <= ship_pos.x <= 1_000_000_000,
        -1_000_000_000 <= ship_pos.y <= 1_000_000_000,
        excl <= 1_000_000_000,
    ensures
        r == !far_enough(p, ship_pos, excl as int),
{
    let dx: i64 = p.x - ship_pos.x;
    let dy: i64 = p.y - ship_pos.y;
    proof {
        assert(0 <= dx * dx <= 4_000_000_000_000_000_000 && 0 <= dy * dy
            <= 4_000_000_000_000_000_000) by (nonlinear_arith)
            requires
                -2_000_000_000 <= dx <= 2_000_000_000,
                -2_000_000_000 <= dy <= 2_000_000_000,
        ;
        assert(0 <= (excl as i64) * (excl as i64) <= 1_000_000_000_000_000_000)
            by (nonlinear_arith)
            requires
                0 <= excl <= 1_000_000_000,
        ;
    }
    let e: i64 = excl as i64;
    dx * dx + dy * dy <= e * e
}

/// The bullet the ship fires: spawned one hit radius ahead of its center
/// along its facing, heading where the ship faces.
pub open spec fn ship_shot(s: Ship, cfg: &Config) -> Bullet {
    Bullet::spec_new(
        offset_pos(s.position, s.facing_angle as int, cfg.ship_hit_radius as int, cfg),
        s.facing_angle,
        None,
        cfg,
    )
}

/// How the spawn stage relates the world after (`post`) to the world
/// before (`pre`). While the level loads: a ship at the arena's center if
/// none exists, and — if the field is empty — exactly `asteroid_field_size`
/// asteroids at the outermost stage, placed from the candidate list outside
/// the exclusion zone around the ship (best effort, see `placed`). While
/// the level runs: a player bullet on the shoot action once the weapon
/// cooldown has elapsed (rearming it), and one alien when the alien timer
/// reaches zero (rearming the spawn period). In any other state nothing
/// changes.
pub open spec fn spawn_rel(
    pre: Game,
    post: Game,
    candidates: Seq<AsteroidCandidate>,
    alien_seed: AlienSeed,
    cfg: &Config,
) -> bool {
    &&& post.state == pre.state
    &&& post.player_actions == pre.player_actions
    &&& post.break_timer == pre.break_timer
    &&& pre.state == GameState::LevelLoading ==> {
        let ship = if pre.ship is None {
            Some(Ship::spec_new(cfg))
        } else {
            pre.ship
        };
        &&& post.ship == ship
        &&& post.asteroids@ == if pre.asteroids@.len() == 0 {
            placed(
                candidates,
                ship->Some_0.position,
                cfg.asteroid_field_size as nat,
                cfg.asteroid_stages@.len() - 1,
                cfg,
            )
        } else {
            pre.asteroids@
        }
        &&& post.alien_timer == pre.alien_timer
        &&& post.bullets == pre.bullets
        &&& post.aliens == pre.aliens
        &&& post.explosions == pre.explosions
    }
    &&& pre.state == GameState::LevelRunning ==> {
        let fires = match pre.ship {
            Some(s) => pre.player_actions.spec_contains(Action::Shoot)
                && s.weapon_cooldown_timer == 0,
            None => false,
        };
        &&& post.ship == (match pre.ship {
            Some(s) => Some(
                if fires {
                    Ship { weapon_cooldown_timer: cfg.bullet_cooldown, ..s }
                } else {
                    s
                },
            ),
            None => None::<Ship>,
        })
        &&& post.bullets@ == pre.bullets@ + (if fires {
            seq![ship_shot(pre.ship->Some_0, cfg)]
        } else {
            Seq::<Bullet>::empty()
        })
        &&& post.alien_timer == (if pre.alien_timer == 0 {
            cfg.alien_spawn_period
        } else {
            pre.alien_timer
        })
        &&& post.aliens@ == pre.aliens@ + (if pre.alien_timer == 0 {
            seq![
                Alien::spec_new(
                    alien_seed.y,
                    alien_seed.direction_roll,
                    alien_seed.kind_roll,
                    alien_seed.speed,
                    cfg,
                ),
            ]
        } else {
            Seq::<Alien>::empty()
        })
        &&& post.asteroids == pre.asteroids
        &&& post.explosions == pre.explosions
    }
    &&& pre.state != GameState::LevelLoading && pre.state != GameState::LevelRunning ==> post
        == pre
}

/// Creates this frame's new entities — the loading ship and field, the
/// running ship's shot and the periodic alien — exactly as `spawn_rel`
/// states.
pub fn update(
    game: &mut Game,
    cfg: &Config,
    candidates: &Vec<AsteroidCandidate>,
    alien_seed: &AlienSeed,
)
    requires
        old(game).entities_wf(cfg),
        cfg.wf(),
        candidates@.len() >= cfg.asteroid_field_size,
        forall|i: int| 0 <= i < candidates@.len() ==> (#[trigger] candidates@[i]).wf(cfg),
        alien_seed.wf(cfg),
    ensures
        final(game).entities_wf(cfg),
        spawn_rel(*old(game), *final(game), candidates@, *alien_seed, cfg),
{
    match game.state {
        GameState::LevelLoading => {
            if game.ship.is_none() {
                game.ship = Some(Ship::new(cfg));
            }
            if game.asteroids.len() == 0 {
                let ship = game.ship.unwrap();
                let start_stage = cfg.asteroid_stages.len() - 1;
                let target = cfg.asteroid_field_size;
                let n_cands = candidates.len();
                let mut need: usize = target;
                let mut i: usize = 0;
                proof {
                    lemma_placed_len(
                        candidates@,
                        ship.position,
                        target as nat,
                        start_stage as int,
                        cfg,
                    );
                    assert(candidates@.skip(0) =~= candidates@);
                    assert(game.asteroids@ + placed(
                        candidates@.skip(0),
                        ship.position,
                        target as nat,
                        start_stage as int,
                        cfg,
                    ) =~= placed(
                        candidates@,
                        ship.position,
                        target as nat,
                        start_stage as int,
                        cfg,
                    ));
                }
                while i < n_cands && need > 0
                    invariant
                        i <= n_cands,
                        cfg.wf(),
                        need <= target,
                        n_cands == candidates@.len(),
                        n_cands - i >= need,
                        0 <= start_stage < cfg.asteroid_stages@.len(),
                        start_stage == cfg.asteroid_stages@.len() - 1,
                        forall|j: int| 0 <= j < candidates@.len() ==> (#[trigger] candidates@[
                            j
                        ]).wf(cfg),
                        ship.wf(cfg),
                        game.state == old(game).state,
                        game.player_actions == old(game).player_actions,
                        game.break_timer == old(game).break_timer,
                        game.alien_timer == old(game).alien_timer,
                        game.ship is Some && game.ship->Some_0 == ship,
                        game.bullets == old(game).bullets,
                        game.aliens == old(game).aliens,
                        game.explosions == old(game).explosions,
                        forall|j: int| 0 <= j < game.asteroids@.len() ==> (
                        #[trigger] game.asteroids@[j]).wf(cfg),
                        game.asteroids@ + placed(
                            candidates@.skip(i as int),
                            ship.position,
                            need as nat,
                            start_stage as int,
                            cfg,
                        ) == placed(
                            candidates@,
                            ship.position,
                            target as nat,
                            start_stage as int,
                            cfg,
                        ),
                    decreases n_cands - i,
                {
                    let c = candidates[i];
                    proof {
                        assert(candidates@.skip(i as int).len() == n_cands - i);
                        assert(candidates@.skip(i as int)[0] == candidates@[i as int]);
                        assert(candidates@.skip(i as int).skip(1) =~= candidates@.skip(i + 1));
                    }
                    let accept = !is_too_close(
                        c.position,
                        ship.position,
                        cfg.asteroid_exclusion_radius,
                    ) || n_cands - i <= need;
                    if accept {
                        let a = Asteroid::new(
                            c.position,
                            start_stage,
                            c.seed.angle,
                            c.seed.speed_frac_milli,
                            cfg,
                        );
                        game.asteroids.push(a);
                        need = need - 1;
                    }
                    i = i + 1;
                }
                proof {
                    if i == n_cands && need > 0 {
                        assert(false);
                    }
                    assert(placed(
                        candidates@.skip(i as int),
                        ship.position,
                        0nat,
                        start_stage as int,
                        cfg,
                    ) =~= Seq::<Asteroid>::empty());
                    assert(game.asteroids@ =~= game.asteroids@ + Seq::<Asteroid>::empty());
                }
            }
        },
        GameState::LevelRunning => {
            let ship = game.ship;
            if let Some(s) = ship {
                if game.player_actions.contains(Action::Shoot) && s.weapon_cooldown_timer == 0 {
                    let mut s2 = s;
                    s2.weapon_cooldown_timer = cfg.bullet_cooldown;
                    game.ship = Some(s2);
                    let muzzle = offset_position(
                        s.position,
                        s.facing_angle,
                        cfg.ship_hit_radius,
                        cfg,
                    );
                    let b = Bullet::new(muzzle, s.facing_angle, None, cfg);
                    game.bullets.push(b);
                }
            }
            if game.alien_timer == 0 {
                game.alien_timer = cfg.alien_spawn_period;
                let a = Alien::new(
                    alien_seed.y,
                    alien_seed.direction_roll,
                    alien_seed.kind_roll,
                    alien_seed.speed,
                    cfg,
                );
                game.aliens.push(a);
            }
            proof {
                let fires = match old(game).ship {
                    Some(s) => old(game).player_actions.spec_contains(Action::Shoot)
                        && s.weapon_cooldown_timer == 0,
                    None => false,
                };
                if fires {
                    assert(game.bullets@ =~= old(game).bullets@ + seq![
                        ship_shot(old(game).ship->Some_0, cfg),
                    ]);
                } else {
                    assert(game.bullets@ =~= old(game).bullets@ + Seq::<Bullet>::empty());
                }
                if old(game).alien_timer == 0 {
                    assert(game.aliens@ =~= old(game).aliens@ + seq![
                        Alien::spec_new(
                            alien_seed.y,
                            alien_seed.direction_roll,
                            alien_seed.kind_roll,
                            alien_seed.speed,
                            cfg,
                        ),
                    ]);
                } else {
                    assert(game.aliens@ =~= old(game).aliens@ + Seq::<Alien>::empty());
                }
            }
        },
        _ => (),
    }
}

} // verus!
