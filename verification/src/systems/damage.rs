//! Damage stage: converts the frame's hit flags into world mutations. A hit
//! ship or alien is marked destroyed and leaves an explosion; hit bullets
//! are removed outright; a hit asteroid is marked destroyed, leaves an
//! explosion, and — above stage 0 — fragments into exactly two children one
//! stage down at its position. Fragments are appended after the scan, so
//! they never feed back into the same frame's destruction.

use crate::cfg::Config;
use crate::entity::{Alien, Asteroid, AsteroidSeed, Body, Bullet, Explosion, Ship};
use crate::game::Game;
use vstd::pervasive::VecAdditionalExecFns;
use vstd::prelude::*;

verus! {

/// A hit bullet is removed during damage; the rest survive.
pub open spec fn bullet_unhit(b: Bullet) -> bool {
    !b.body.is_hit
}

/// The explosion a destroyed ship leaves: at the ship's position, with no
/// residual velocity.
pub open spec fn ship_explosion(s: Ship, cfg: &Config) -> Explosion {
    Explosion {
        position: s.position,
        body: Body { radius: 0, angle: 0, speed: 0, is_hit: false },
        life_timer: cfg.ship_explosion_lifetime,
    }
}

/// The explosion a destroyed alien leaves: debris drifts on with the
/// alien's heading and speed.
pub open spec fn alien_explosion(a: Alien, cfg: &Config) -> Explosion {
    Explosion {
        position: a.position,
        body: Body { radius: 0, angle: a.body.angle, speed: a.body.speed, is_hit: false },
        life_timer: cfg.ship_explosion_lifetime,
    }
}

/// The explosion a destroyed asteroid leaves: debris drifts on with the
/// asteroid's heading at one and a half times its speed.
pub open spec fn asteroid_explosion(a: Asteroid, cfg: &Config) -> Explosion {
    Explosion {
        position: a.position,
        body: Body {
            radius: 0,
            angle: a.body.angle,
            speed: (a.body.speed * 3 / 2) as u64,
            is_hit: false,
        },
        life_timer: cfg.asteroid_explosion_lifetime,
    }
}

/// One fragment of a destroyed asteroid: one stage down, at the parent's
/// position, with the seed's heading and speed fraction.
pub open spec fn child_of(a: Asteroid, seed: AsteroidSeed, cfg: &Config) -> Asteroid {
    Asteroid {
        position: a.position,
        stage: (a.stage - 1) as usize,
        body: Body {
            radius: cfg.asteroid_stages@[a.stage - 1].radius,
            angle: seed.angle,
            speed: (cfg.asteroid_stages@[a.stage - 1].max_speed * seed.speed_frac_milli
                / 1000) as u64,
            is_hit: false,
        },
        is_destroyed: false,
    }
}

/// The explosions the frame's hit aliens leave, in collection order.
pub open spec fn alien_explosions(aliens: Seq<Alien>, cfg: &Config) -> Seq<Explosion>
    decreases aliens.len(),
{
    if aliens.len() == 0 {
        Seq::empty()
    } else {
        let rest = alien_explosions(aliens.drop_last(), cfg);
        if aliens.last().body.is_hit {
            rest.push(alien_explosion(aliens.last(), cfg))
        } else {
            rest
        }
    }
}

/// The explosions the frame's hit asteroids leave, in collection order.
pub open spec fn asteroid_explosions(asteroids: Seq<Asteroid>, cfg: &Config) -> Seq<Explosion>
    decreases asteroids.len(),
{
    if asteroids.len() == 0 {
        Seq::empty()
    } else {
        let rest = asteroid_explosions(asteroids.drop_last(), cfg);
        if asteroids.last().body.is_hit {
            rest.push(asteroid_explosion(asteroids.last(), cfg))
        } else {
            rest
        }
    }
}

/// The fragments the frame's hit asteroids spawn, in collection order: two
/// children for every hit asteroid above stage 0, none for stage 0. The
/// asteroid at index `i` consumes the seeds at `2 i` and `2 i + 1`.
pub open spec fn frag_children(
    asteroids: Seq<Asteroid>,
    seeds: Seq<AsteroidSeed>,
    cfg: &Config,
) -> Seq<Asteroid>
    decreases asteroids.len(),
{
    if asteroids.len() == 0 {
        Seq::empty()
    } else {
        let rest = frag_children(asteroids.drop_last(), seeds, cfg);
        let i = asteroids.len() - 1;
        let a = asteroids.last();
        if a.body.is_hit && a.stage > 0 {
            rest.push(child_of(a, seeds[2 * i], cfg)).push(child_of(a, seeds[2 * i + 1], cfg))
        } else {
            rest
        }
    }
}

/// The fragmentation law: destroying one hit asteroid above stage 0 yields
/// exactly two children, both one stage down at the parent's position, with
/// the two seeds' independently drawn headings; destroying a stage-0
/// asteroid yields none.
pub proof fn lemma_fragmentation(a: Asteroid, seeds: Seq<AsteroidSeed>, cfg: &Config)
    requires
        a.body.is_hit,
        seeds.len() >= 2,
    ensures
        a.stage > 0 ==> frag_children(seq![a], seeds, cfg) == seq![
            child_of(a, seeds[0], cfg),
            child_of(a, seeds[1], cfg),
        ],
        a.stage > 0 ==> frag_children(seq![a], seeds, cfg).len() == 2,
        a.stage > 0 ==> forall|i: int| 0 <= i < 2 ==> (#[trigger] frag_children(
            seq![a],
            seeds,
            cfg,
        )[i]).stage + 1 == a.stage && frag_children(seq![a], seeds, cfg)[i].position == a.position,
        a.stage == 0 ==> frag_children(seq![a], seeds, cfg) == Seq::<Asteroid>::empty(),
{
    let s = seq![a];
    assert(s.drop_last() =~= Seq::<Asteroid>::empty());
    assert(s.last() == a);
    assert(frag_children(s.drop_last(), seeds, cfg) =~= Seq::<Asteroid>::empty());
    if a.stage > 0 {
        assert(frag_children(s, seeds, cfg) =~= seq![
            child_of(a, seeds[0], cfg),
            child_of(a, seeds[1], cfg),
        ]);
    }
}

/// Fresh fragments carry no destruction or hit flags.
pub proof fn lemma_frag_children_flags(
    asteroids: Seq<Asteroid>,
    seeds: Seq<AsteroidSeed>,
    cfg: &Config,
)
    ensures
        forall|i: int| 0 <= i < frag_children(asteroids, seeds, cfg).len() ==> !(
        #[trigger] frag_children(asteroids, seeds, cfg)[i]).is_destroyed && !frag_children(
            asteroids,
            seeds,
            cfg,
        )[i].body.is_hit,
    decreases asteroids.len(),
{
    if asteroids.len() > 0 {
        lemma_frag_children_flags(asteroids.drop_last(), seeds, cfg);
        let rest = frag_children(asteroids.drop_last(), seeds, cfg);
        let whole = frag_children(asteroids, seeds, cfg);
        let a = asteroids.last();
        assert forall|i: int| 0 <= i < whole.len() implies !(#[trigger] whole[i]).is_destroyed
            && !whole[i].body.is_hit by {
            if a.body.is_hit && a.stage > 0 {
                if i < rest.len() {
                    assert(whole[i] == rest[i]);
                } else {
                    assert(whole[i] == child_of(a, seeds[2 * (asteroids.len() - 1)], cfg)
                        || whole[i] == child_of(a, seeds[2 * (asteroids.len() - 1) + 1], cfg));
                }
            } else {
                assert(whole[i] == rest[i]);
            }
        }
    }
}

/// Keeps the bullets that were not hit this frame, in order.
fn remove_hit_bullets(v: &mut Vec<Bullet>)
    ensures
        final(v)@ == old(v)@.filter(|b: Bullet| bullet_unhit(b)),
        forall|i: int| 0 <= i < final(v)@.len() ==> old(v)@.contains(#[trigger] final(v)@[i]),
{
    let n = v.len();
    let mut out: Vec<Bullet> = Vec::new();
    let mut i: usize = 0;
    proof {
        reveal(Seq::filter);
        assert(old(v)@.subrange(0, 0).filter(|b: Bullet| bullet_unhit(b)) =~= Seq::<
            Bullet,
        >::empty());
    }
    while i < n
        invariant
            i <= n,
            v == old(v),
            n == v@.len(),
            out@ == v@.subrange(0, i as int).filter(|b: Bullet| bullet_unhit(b)),
            forall|k: int| 0 <= k < out@.len() ==> v@.contains(#[trigger] out@[k]),
        decreases n - i,
    {
        let b = v[i];
        proof {
            reveal(Seq::filter);
            assert(v@.subrange(0, i + 1).drop_last() =~= v@.subrange(0, i as int));
            assert(v@.subrange(0, i + 1).last() == v@[i as int]);
        }
        if !b.body.is_hit {
            out.push(b);
        }
        i = i + 1;
    }
    proof {
        assert(v@.subrange(0, n as int) =~= v@);
    }
    *v = out;
}

/// How the damage stage relates the world after (`post`) to the world
/// before (`pre`): every hit ship, alien and asteroid becomes destroyed,
/// hit bullets are removed outright, the fragments of hit asteroids above
/// stage 0 are appended after the originals (consuming the caller-drawn
/// seeds by index), and the explosions of the destroyed are enqueued in
/// scan order — ship, then aliens, then asteroids. Timers, state and
/// actions are untouched.
pub open spec fn damage_rel(pre: Game, post: Game, frag_seeds: Seq<AsteroidSeed>, cfg: &Config)
    -> bool {
    &&& post.state == pre.state
    &&& post.player_actions == pre.player_actions
    &&& post.break_timer == pre.break_timer
    &&& post.alien_timer == pre.alien_timer
    &&& post.ship == (match pre.ship {
        Some(s) => Some(Ship { is_destroyed: s.is_destroyed || s.body.is_hit, ..s }),
        None => None::<Ship>,
    })
    &&& post.aliens@.len() == pre.aliens@.len()
    &&& forall|i: int| 0 <= i < pre.aliens@.len() ==> post.aliens@[i] == (Alien {
        is_destroyed: pre.aliens@[i].is_destroyed || pre.aliens@[i].body.is_hit,
        ..pre.aliens@[i]
    })
    &&& post.bullets@ == pre.bullets@.filter(|b: Bullet| bullet_unhit(b))
    &&& forall|i: int| 0 <= i < post.bullets@.len() ==> !(#[trigger] post.bullets@[i]).body.is_hit
    &&& post.asteroids@.len() == pre.asteroids@.len() + frag_children(
        pre.asteroids@,
        frag_seeds,
        cfg,
    ).len()
    &&& forall|i: int| 0 <= i < pre.asteroids@.len() ==> post.asteroids@[i] == (Asteroid {
        is_destroyed: pre.asteroids@[i].is_destroyed || pre.asteroids@[i].body.is_hit,
        ..pre.asteroids@[i]
    })
    &&& post.asteroids@.skip(pre.asteroids@.len() as int) == frag_children(
        pre.asteroids@,
        frag_seeds,
        cfg,
    )
    &&& post.explosions@ == pre.explosions@ + (match pre.ship {
        Some(s) => if s.body.is_hit {
            seq![ship_explosion(s, cfg)]
        } else {
            Seq::<Explosion>::empty()
        },
        None => Seq::<Explosion>::empty(),
    }) + alien_explosions(pre.aliens@, cfg) + asteroid_explosions(pre.asteroids@, cfg)
}

/// Applies the frame's destruction: hit ship and aliens become destroyed
/// and leave explosions, hit bullets are removed, hit asteroids become
/// destroyed, leave explosions, and fragment into two children one stage
/// down, exactly as `damage_rel` states.
pub fn update(game: &mut Game, cfg: &Config, frag_seeds: &Vec<AsteroidSeed>)
    requires
        old(game).entities_wf(cfg),
        cfg.wf(),
        frag_seeds@.len() >= 2 * old(game).asteroids@.len(),
        forall|i: int| 0 <= i < frag_seeds@.len() ==> (#[trigger] frag_seeds@[i]).wf(),
    ensures
        final(game).entities_wf(cfg),
        damage_rel(*old(game), *final(game), frag_seeds@, cfg),
{
    let ghost base = old(game).explosions@;
    let ghost ship_part = match old(game).ship {
        Some(s) => if s.body.is_hit {
            seq![ship_explosion(s, cfg)]
        } else {
            Seq::<Explosion>::empty()
        },
        None => Seq::<Explosion>::empty(),
    };
    // Ship: destruction and its explosion.
    let ship = game.ship;
    if let Some(mut s) = ship {
        if s.body.is_hit {
            s.is_destroyed = true;
            game.ship = Some(s);
            game.explosions.push(
                Explosion {
                    position: s.position,
                    body: Body { radius: 0, angle: 0, speed: 0, is_hit: false },
                    life_timer: cfg.ship_explosion_lifetime,
                },
            );
        }
    }
    proof {
        assert(game.explosions@ =~= base + ship_part);
    }
    // Aliens: destruction and their explosions, in order.
    let ghost ship_done = game.ship;
    let n_aliens = game.aliens.len();
    let mut i: usize = 0;
    proof {
        assert(alien_explosions(old(game).aliens@.subrange(0, 0), cfg) =~= Seq::<
            Explosion,
        >::empty());
        assert(game.explosions@ =~= base + ship_part + alien_explosions(
            old(game).aliens@.subrange(0, 0),
            cfg,
        ));
    }
    while i < n_aliens
        invariant
            i <= n_aliens,
            cfg.wf(),
            game.state == old(game).state,
            game.player_actions == old(game).player_actions,
            game.break_timer == old(game).break_timer,
            game.alien_timer == old(game).alien_timer,
            game.ship == ship_done,
            game.bullets == old(game).bullets,
            game.asteroids == old(game).asteroids,
            game.aliens@.len() == n_aliens == old(game).aliens@.len(),
            forall|j: int| i <= j < n_aliens ==> game.aliens@[j] == old(game).aliens@[j],
            forall|j: int| 0 <= j < i ==> game.aliens@[j] == (Alien {
                is_destroyed: old(game).aliens@[j].is_destroyed || old(
                    game,
                ).aliens@[j].body.is_hit,
                ..old(game).aliens@[j]
            }),
            forall|j: int| 0 <= j < n_aliens ==> (#[trigger] old(game).aliens@[j]).wf(cfg),
            game.explosions@ == base + ship_part + alien_explosions(
                old(game).aliens@.subrange(0, i as int),
                cfg,
            ),
            forall|j: int| 0 <= j < game.explosions@.len() ==> (#[trigger] game.explosions@[
                j
            ]).wf(cfg),
        decreases n_aliens - i,
    {
        let a = game.aliens[i];
        proof {
            assert(old(game).aliens@.subrange(0, i + 1).drop_last() =~= old(
                game,
            ).aliens@.subrange(0, i as int));
            assert(old(game).aliens@.subrange(0, i + 1).last() == old(game).aliens@[i as int]);
        }
        if a.body.is_hit {
            let mut a2 = a;
            a2.is_destroyed = true;
            game.aliens.set(i, a2);
            game.explosions.push(
                Explosion {
                    position: a.position,
                    body: Body {
                        radius: 0,
                        angle: a.body.angle,
                        speed: a.body.speed,
                        is_hit: false,
                    },
                    life_timer: cfg.ship_explosion_lifetime,
                },
            );
        }
        i = i + 1;
    }
    proof {
        assert(old(game).aliens@.subrange(0, n_aliens as int) =~= old(game).aliens@);
    }
    // Bullets: hit ones are removed outright.
    remove_hit_bullets(&mut game.bullets);
    // Asteroids: destruction, their explosions in order, and the fragments,
    // appended after the scan.
    let n_ast = game.asteroids.len();
    let n_seeds = frag_seeds.len();
    let mut new_asteroids: Vec<Asteroid> = Vec::new();
    let mut k: usize = 0;
    proof {
        assert(asteroid_explosions(old(game).asteroids@.subrange(0, 0), cfg) =~= Seq::<
            Explosion,
        >::empty());
        assert(frag_children(old(game).asteroids@.subrange(0, 0), frag_seeds@, cfg) =~= Seq::<
            Asteroid,
        >::empty());
        assert(game.explosions@ =~= base + ship_part + alien_explosions(old(game).aliens@, cfg)
            + asteroid_explosions(old(game).asteroids@.subrange(0, 0), cfg));
    }
    while k < n_ast
        invariant
            k <= n_ast,
            cfg.wf(),
            game.state == old(game).state,
            game.player_actions == old(game).player_actions,
            game.break_timer == old(game).break_timer,
            game.alien_timer == old(game).alien_timer,
            game.ship == ship_done,
            game.bullets@ == old(game).bullets@.filter(|b: Bullet| bullet_unhit(b)),
            forall|j: int| 0 <= j < game.bullets@.len() ==> (#[trigger] game.bullets@[j]).wf(cfg),
            game.aliens@.len() == old(game).aliens@.len(),
            forall|j: int| 0 <= j < game.aliens@.len() ==> game.aliens@[j] == (Alien {
                is_destroyed: old(game).aliens@[j].is_destroyed || old(
                    game,
                ).aliens@[j].body.is_hit,
                ..old(game).aliens@[j]
            }),
            game.asteroids@.len() == n_ast == old(game).asteroids@.len(),
            n_seeds == frag_seeds@.len(),
            n_seeds >= 2 * n_ast,
            forall|j: int| 0 <= j < frag_seeds@.len() ==> (#[trigger] frag_seeds@[j]).wf(),
            forall|j: int| k <= j < n_ast ==> game.asteroids@[j] == old(game).asteroids@[j],
            forall|j: int| 0 <= j < k ==> game.asteroids@[j] == (Asteroid {
                is_destroyed: old(game).asteroids@[j].is_destroyed || old(
                    game,
                ).asteroids@[j].body.is_hit,
                ..old(game).asteroids@[j]
            }),
            forall|j: int| 0 <= j < n_ast ==> (#[trigger] old(game).asteroids@[j]).wf(cfg),
            game.explosions@ == base + ship_part + alien_explosions(old(game).aliens@, cfg)
                + asteroid_explosions(old(game).asteroids@.subrange(0, k as int), cfg),
            forall|j: int| 0 <= j < game.explosions@.len() ==> (#[trigger] game.explosions@[
                j
            ]).wf(cfg),
            new_asteroids@ == frag_children(
                old(game).asteroids@.subrange(0, k as int),
                frag_seeds@,
                cfg,
            ),
            forall|j: int| 0 <= j < new_asteroids@.len() ==> (#[trigger] new_asteroids@[j]).wf(
                cfg,
            ),
        decreases n_ast - k,
    {
        let a = game.asteroids[k];
        proof {
            assert(old(game).asteroids@.subrange(0, k + 1).drop_last() =~= old(
                game,
            ).asteroids@.subrange(0, k as int));
            assert(old(game).asteroids@.subrange(0, k + 1).last() == old(game).asteroids@[
                k as int
            ]);
        }
        if a.body.is_hit {
            let mut a2 = a;
            a2.is_destroyed = true;
            game.asteroids.set(k, a2);
            proof {
                assert(a.body.speed * 3 / 2 <= 2_000_000);
            }
            game.explosions.push(
                Explosion {
                    position: a.position,
                    body: Body {
                        radius: 0,
                        angle: a.body.angle,
                        speed: a.body.speed * 3 / 2,
                        is_hit: false,
                    },
                    life_timer: cfg.asteroid_explosion_lifetime,
                },
            );
            if a.stage > 0 {
                let seed1 = frag_seeds[2 * k];
                let seed2 = frag_seeds[2 * k + 1];
                let c1 = Asteroid::new(a.position, a.stage - 1, seed1.angle,
                    seed1.speed_frac_milli, cfg);
                let c2 = Asteroid::new(a.position, a.stage - 1, seed2.angle,
                    seed2.speed_frac_milli, cfg);
                proof {
                    assert(c1 == child_of(a, frag_seeds@[2 * k as int], cfg));
                    assert(c2 == child_of(a, frag_seeds@[2 * k + 1], cfg));
                }
                new_asteroids.push(c1);
                new_asteroids.push(c2);
            }
        }
        k = k + 1;
    }
    proof {
        assert(old(game).asteroids@.subrange(0, n_ast as int) =~= old(game).asteroids@);
    }
    game.asteroids.append(&mut new_asteroids);
    proof {
        assert(game.asteroids@.skip(n_ast as int) =~= frag_children(
            old(game).asteroids@,
            frag_seeds@,
            cfg,
        ));
        assert forall|j: int| 0 <= j < game.bullets@.len() implies !(#[trigger] game.bullets@[
            j
        ]).body.is_hit by {
            old(game).bullets@.lemma_filter_pred(|b: Bullet| bullet_unhit(b), j);
        }
    }
}

} // verus!
