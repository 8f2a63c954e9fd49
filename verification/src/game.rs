//! The world: the current game state, the per-frame action set, the two
//! world timers and the five entity collections, together with the
//! well-formedness predicates the pipeline stages maintain and the composed
//! per-frame update.

use crate::cfg::{Config, MAX_FRAME_MILLIS, MAX_STEP, TIME_CAP};
use crate::entity::{
    ActionSet, Alien, AlienSeed, Asteroid, AsteroidCandidate, AsteroidSeed, Bullet, Explosion,
    GameState, Ship,
};
use crate::systems;
use crate::systems::spawn::lemma_placed_len;
use vstd::prelude::*;

verus! {

/// The whole mutable world advanced once per frame.
pub struct Game {
    /// Current state of the finite game-state machine.
    pub state: GameState,
    /// Actions active this frame; recomputed every frame, never accumulated.
    pub player_actions: ActionSet,
    /// Shared transition delay out of game-over and level-completed, ms.
    pub break_timer: u32,
    /// Countdown to the next periodic alien spawn, ms.
    pub alien_timer: u32,
    /// The player's ship, if one is in play.
    pub ship: Option<Ship>,
    pub bullets: Vec<Bullet>,
    pub asteroids: Vec<Asteroid>,
    pub explosions: Vec<Explosion>,
    pub aliens: Vec<Alien>,
}

impl Game {
    /// Every entity and timer is within the bounds the stages' arithmetic
    /// relies on. Holds at every point of the pipeline.
    pub open spec fn entities_wf(self, cfg: &Config) -> bool {
        &&& match self.ship {
            Some(s) => s.wf(cfg),
            None => true,
        }
        &&& forall|i: int| 0 <= i < self.bullets@.len() ==> (#[trigger] self.bullets@[i]).wf(cfg)
        &&& forall|i: int| 0 <= i < self.asteroids@.len() ==> (#[trigger] self.asteroids@[i]).wf(
            cfg,
        )
        &&& forall|i: int| 0 <= i < self.aliens@.len() ==> (#[trigger] self.aliens@[i]).wf(cfg)
        &&& forall|i: int| 0 <= i < self.explosions@.len() ==> (#[trigger] self.explosions@[i]).wf(
            cfg,
        )
        &&& self.break_timer <= TIME_CAP
        &&& self.alien_timer <= TIME_CAP
    }

    /// The frame-boundary invariant: on top of `entities_wf`, destruction
    /// and hit flags are consumed (cleanup removed their carriers), expired
    /// bullets and explosions are gone, and every alien is within one
    /// frame's travel of the exit margin.
    pub open spec fn wf(self, cfg: &Config) -> bool {
        &&& self.entities_wf(cfg)
        &&& match self.ship {
            Some(s) => !s.is_destroyed && !s.body.is_hit,
            None => true,
        }
        &&& forall|i: int| 0 <= i < self.bullets@.len() ==> {
            &&& !(#[trigger] self.bullets@[i]).body.is_hit
            &&& self.bullets@[i].life_timer > 0
        }
        &&& forall|i: int| 0 <= i < self.asteroids@.len() ==> {
            &&& !(#[trigger] self.asteroids@[i]).is_destroyed
            &&& !self.asteroids@[i].body.is_hit
        }
        &&& forall|i: int| 0 <= i < self.aliens@.len() ==> {
            &&& !(#[trigger] self.aliens@[i]).is_destroyed
            &&& !self.aliens@[i].body.is_hit
            &&& -(cfg.alien_exit_margin + MAX_STEP) <= self.aliens@[i].position.x
                <= cfg.arena_width + cfg.alien_exit_margin + MAX_STEP
        }
        &&& forall|i: int| 0 <= i < self.explosions@.len() ==> (#[trigger] self.explosions@[
            i
        ]).life_timer > 0
    }

    /// `new` relates to `old` as a level reset: everything returns to the
    /// fresh-world defaults except the alien spawn cadence, which carries
    /// over.
    pub open spec fn is_reset_of(new: Game, old: Game) -> bool {
        &&& new.state == GameState::LevelLoading
        &&& new.player_actions == (ActionSet {
            accelerate: false,
            turn_left: false,
            turn_right: false,
            shoot: false,
            toggle_pause: false,
            toggle_debug_info: false,
        })
        &&& new.break_timer == 0
        &&& new.alien_timer == old.alien_timer
        &&& new.ship is None
        &&& new.bullets@.len() == 0
        &&& new.asteroids@.len() == 0
        &&& new.explosions@.len() == 0
        &&& new.aliens@.len() == 0
    }

    /// A fresh world: loading, no entities, no player intent, timers zero.
    pub fn new() -> (r: Game)
        ensures
            r.state == GameState::LevelLoading,
            r.alien_timer == 0,
            Game::is_reset_of(r, r),
            forall|cfg: &Config| r.wf(cfg),
    {
        Game {
            state: GameState::LevelLoading,
            player_actions: ActionSet::none(),
            break_timer: 0,
            alien_timer: 0,
            ship: None,
            bullets: Vec::new(),
            asteroids: Vec::new(),
            explosions: Vec::new(),
            aliens: Vec::new(),
        }
    }

    /// One run of the frame pipeline in its fixed order — ai, timers,
    /// movement, collision, damage, game-state, cleanup, spawn — from the
    /// world `pre` to the world `post`: the tuple `t` holds the seven
    /// intermediate worlds, and each consecutive pair satisfies its stage's
    /// exact relation. Since every stage relation determines its `post`
    /// from its `pre` and the frame's inputs, this pins the whole frame's
    /// result.
    pub open spec fn frame_steps(
        pre: Game,
        t: (Game, Game, Game, Game, Game, Game, Game),
        post: Game,
        dt: u32,
        shift_rolls: Seq<u32>,
        frag_seeds: Seq<AsteroidSeed>,
        candidates: Seq<AsteroidCandidate>,
        alien_seed: AlienSeed,
        cfg: &Config,
    ) -> bool {
        &&& crate::systems::ai::ai_rel(pre, t.0, shift_rolls, cfg)
        &&& crate::systems::timers::timers_rel(t.0, t.1, dt)
        &&& crate::systems::moving::moving_rel(t.1, t.2, dt, cfg)
        &&& crate::systems::collision::collision_rel(t.2, t.3)
        &&& crate::systems::damage::damage_rel(t.3, t.4, frag_seeds, cfg)
        &&& crate::systems::gamestate::gamestate_rel(t.4, t.5, cfg)
        &&& crate::systems::cleanup::cleanup_rel(t.5, t.6)
        &&& crate::systems::spawn::spawn_rel(t.6, post, candidates, alien_seed, cfg)
    }

    /// Advances the world one frame: the pipeline's stages in their fixed
    /// order (ai, timers, movement, collision, damage, game-state, cleanup,
    /// spawn), with the frame's elapsed milliseconds, the frame's action
    /// set already in `player_actions`, and the caller's random draws.
    ///
    /// The new world is exactly the composition of the eight stage
    /// relations in that order (`frame_steps`, witnessed by the
    /// intermediate worlds), and the frame-boundary invariant `wf` is
    /// maintained: afterward every position is wrapped (aliens within a
    /// frame of the exit margin), no destroyed or hit entity survives, and
    /// no expired bullet or explosion remains.
    #[verifier::rlimit(50)]
    pub fn frame(
        &mut self,
        cfg: &Config,
        dt: u32,
        shift_rolls: &Vec<u32>,
        frag_seeds: &Vec<AsteroidSeed>,
        candidates: &Vec<AsteroidCandidate>,
        alien_seed: &AlienSeed,
    )
        requires
            old(self).wf(cfg),
            cfg.wf(),
            dt <= MAX_FRAME_MILLIS,
            shift_rolls@.len() >= old(self).aliens@.len(),
            forall|i: int| 0 <= i < shift_rolls@.len() ==> (#[trigger] shift_rolls@[i]) < 4,
            frag_seeds@.len() >= 2 * old(self).asteroids@.len(),
            forall|i: int| 0 <= i < frag_seeds@.len() ==> (#[trigger] frag_seeds@[i]).wf(),
            candidates@.len() >= cfg.asteroid_field_size,
            forall|i: int| 0 <= i < candidates@.len() ==> (#[trigger] candidates@[i]).wf(cfg),
            alien_seed.wf(cfg),
        ensures
            final(self).wf(cfg),
            exists|t: (Game, Game, Game, Game, Game, Game, Game)|
                Game::frame_steps(
                    *old(self),
                    t,
                    *final(self),
                    dt,
                    shift_rolls@,
                    frag_seeds@,
                    candidates@,
                    *alien_seed,
                    cfg,
                ),
    {
        let ghost g0 = *old(self);
        systems::ai::update(self, cfg, shift_rolls);
        let ghost g1 = *self;
        systems::timers::update(self, cfg, dt);
        let ghost g2 = *self;
        proof {
            assert forall|i: int| 0 <= i < self.aliens@.len() implies -6_000_000 <= (
            #[trigger] self.aliens@[i]).position.x <= cfg.arena_width + 6_000_000 by {
                assert(g2.aliens@[i].position == g1.aliens@[i].position);
                assert(g1.aliens@[i].position == g0.aliens@[i].position);
            }
        }
        systems::moving::update(self, cfg, dt);
        let ghost g3 = *self;
        systems::collision::update(self, cfg);
        let ghost g4 = *self;
        systems::damage::update(self, cfg, frag_seeds);
        let ghost g5 = *self;
        systems::gamestate::update(self, cfg);
        let ghost g6 = *self;
        systems::cleanup::update(self, cfg);
        let ghost g7 = *self;
        proof {
            let reset = (g5.state == GameState::LevelCompleted || g5.state == GameState::GameOver)
                && g5.break_timer == 0;
            if reset {
                // The reset left nothing behind; the filters keep nothing.
                if g7.aliens@.len() > 0 {
                    assert(g6.aliens@.contains(g7.aliens@[0]));
                }
                if g7.asteroids@.len() > 0 {
                    assert(g6.asteroids@.contains(g7.asteroids@[0]));
                }
                if g7.bullets@.len() > 0 {
                    assert(g6.bullets@.contains(g7.bullets@[0]));
                }
                if g7.explosions@.len() > 0 {
                    assert(g6.explosions@.contains(g7.explosions@[0]));
                }
                assert(g7.wf(cfg));
            } else {
                assert(g6.ship == g5.ship);
                assert(g6.aliens == g5.aliens);
                assert(g6.asteroids == g5.asteroids);
                assert(g6.bullets == g5.bullets);
                assert(g6.explosions == g5.explosions);
                // Surviving aliens carry no flags and sit within a frame's
                // travel of the exit margin.
                assert forall|k: int|
                    0 <= k < g7.aliens@.len() implies {
                        &&& !(#[trigger] g7.aliens@[k]).is_destroyed
                        &&& !g7.aliens@[k].body.is_hit
                        &&& -(cfg.alien_exit_margin + MAX_STEP) <= g7.aliens@[k].position.x
                            <= cfg.arena_width + cfg.alien_exit_margin + MAX_STEP
                    } by {
                    let a = g7.aliens@[k];
                    assert(g6.aliens@.contains(a));
                    let j = choose|j: int| 0 <= j < g6.aliens@.len() && g6.aliens@[j] == a;
                    assert(g5.aliens@[j] == a);
                    assert(!g4.aliens@[j].body.is_hit && !g4.aliens@[j].is_destroyed);
                    assert(g4.aliens@[j].position == g3.aliens@[j].position);
                    assert(g4.aliens@[j].is_destroyed == g3.aliens@[j].is_destroyed);
                    if g2.state == GameState::Pause {
                        assert(g3.aliens@[j] == g2.aliens@[j]);
                    } else {
                        assert(g2.aliens@[j].position.x - MAX_STEP <= g3.aliens@[j].position.x
                            <= g2.aliens@[j].position.x + MAX_STEP);
                        assert(g3.aliens@[j].is_destroyed == g2.aliens@[j].is_destroyed);
                    }
                    if g1.state == GameState::Pause {
                        assert(g2.aliens@[j] == g1.aliens@[j]);
                    } else {
                        assert(g2.aliens@[j].position == g1.aliens@[j].position);
                        assert(g2.aliens@[j].is_destroyed == g1.aliens@[j].is_destroyed);
                    }
                    assert(!g1.aliens@[j].is_destroyed);
                    assert(-(cfg.alien_exit_margin as int) <= g1.aliens@[j].position.x
                        <= cfg.arena_width + cfg.alien_exit_margin);
                }
                // The surviving ship carries no flags.
                match g7.ship {
                    Some(s) => {
                        assert(!s.is_destroyed);
                        assert(!s.body.is_hit);
                    },
                    None => {},
                }
                // Surviving bullets carry no hit flag and have life left.
                assert forall|k: int|
                    0 <= k < g7.bullets@.len() implies !(#[trigger] g7.bullets@[k]).body.is_hit
                        && g7.bullets@[k].life_timer > 0 by {
                    assert(g6.bullets@.contains(g7.bullets@[k]));
                    let j = choose|j: int|
                        0 <= j < g6.bullets@.len() && g6.bullets@[j] == g7.bullets@[k];
                    assert(!g5.bullets@[j].body.is_hit);
                }
                // Surviving asteroids carry no flags.
                assert forall|k: int|
                    0 <= k < g7.asteroids@.len() implies !(
                    #[trigger] g7.asteroids@[k]).is_destroyed && !g7.asteroids@[k].body.is_hit by {
                    let a = g7.asteroids@[k];
                    assert(g6.asteroids@.contains(a));
                    let j = choose|j: int| 0 <= j < g6.asteroids@.len() && g6.asteroids@[j] == a;
                    let n = g4.asteroids@.len() as int;
                    if j < n {
                        assert(g5.asteroids@[j] == Asteroid {
                            is_destroyed: g4.asteroids@[j].is_destroyed
                                || g4.asteroids@[j].body.is_hit,
                            ..g4.asteroids@[j]
                        });
                    } else {
                        systems::damage::lemma_frag_children_flags(
                            g4.asteroids@,
                            frag_seeds@,
                            cfg,
                        );
                        assert(g5.asteroids@.skip(n)[j - n] == a);
                    }
                }
                assert(g7.wf(cfg));
            }
        }
        systems::spawn::update(self, cfg, candidates, alien_seed);
        proof {
            if g7.state == GameState::LevelLoading && g7.asteroids@.len() == 0 {
                let ship = if g7.ship is None {
                    Some(Ship::spec_new(cfg))
                } else {
                    g7.ship
                };
                lemma_placed_len(
                    candidates@,
                    ship->Some_0.position,
                    cfg.asteroid_field_size as nat,
                    cfg.asteroid_stages@.len() - 1,
                    cfg,
                );
            }
            assert(Game::frame_steps(
                g0,
                (g1, g2, g3, g4, g5, g6, g7),
                *self,
                dt,
                shift_rolls@,
                frag_seeds@,
                candidates@,
                *alien_seed,
                cfg,
            ));
        }
    }
}

} // verus!
