//! Cleanup stage: removes the ship if destroyed, destroyed aliens and
//! asteroids, and expired bullets and explosions. Always runs after damage,
//! so the frame's destruction flags and fragment spawns have already
//! happened.

use crate::cfg::Config;
use crate::entity::{Alien, Asteroid, Bullet, Explosion, Ship};
use crate::game::Game;
use vstd::prelude::*;

verus! {

/// An alien survives cleanup while not destroyed.
pub open spec fn alien_lives(a: Alien) -> bool {
    !a.is_destroyed
}

/// An asteroid survives cleanup while not destroyed.
pub open spec fn asteroid_lives(a: Asteroid) -> bool {
    !a.is_destroyed
}

/// A bullet survives cleanup while its lifetime has not expired.
pub open spec fn bullet_lives(b: Bullet) -> bool {
    b.life_timer > 0
}

/// An explosion survives cleanup while its lifetime has not expired.
pub open spec fn explosion_lives(e: Explosion) -> bool {
    e.life_timer > 0
}

/// Keeps the aliens that are still alive, in order.
fn retain_aliens(v: &mut Vec<Alien>)
    ensures
        final(v)@ == old(v)@.filter(|a: Alien| alien_lives(a)),
        forall|i: int| 0 <= i < final(v)@.len() ==> old(v)@.contains(#[trigger] final(v)@[i]),
{
    let n = v.len();
    let mut out: Vec<Alien> = Vec::new();
    let mut i: usize = 0;
    proof {
        reveal(Seq::filter);
        assert(old(v)@.subrange(0, 0).filter(|a: Alien| alien_lives(a)) =~= Seq::<Alien>::empty());
    }
    while i < n
        invariant
            i <= n,
            v == old(v),
            n == v@.len(),
            out@ == v@.subrange(0, i as int).filter(|a: Alien| alien_lives(a)),
            forall|k: int| 0 <= k < out@.len() ==> v@.contains(#[trigger] out@[k]),
        decreases n - i,
    {
        let a = v[i];
        proof {
            reveal(Seq::filter);
            assert(v@.subrange(0, i + 1).drop_last() =~= v@.subrange(0, i as int));
            assert(v@.subrange(0, i + 1).last() == v@[i as int]);
        }
        if !a.is_destroyed {
            out.push(a);
        }
        i = i + 1;
    }
    proof {
        assert(v@.subrange(0, n as int) =~= v@);
    }
    *v = out;
}

/// Keeps the asteroids that are still alive, in order.
fn retain_asteroids(v: &mut Vec<Asteroid>)
    ensures
        final(v)@ == old(v)@.filter(|a: Asteroid| asteroid_lives(a)),
        forall|i: int| 0 <= i < final(v)@.len() ==> old(v)@.contains(#[trigger] final(v)@[i]),
{
    let n = v.len();
    let mut out: Vec<Asteroid> = Vec::new();
    let mut i: usize = 0;
    proof {
        reveal(Seq::filter);
        assert(old(v)@.subrange(0, 0).filter(|a: Asteroid| asteroid_lives(a)) =~= Seq::<
            Asteroid,
        >::empty());
    }
    while i < n
        invariant
            i <= n,
            v == old(v),
            n == v@.len(),
            out@ == v@.subrange(0, i as int).filter(|a: Asteroid| asteroid_lives(a)),
            forall|k: int| 0 <= k < out@.len() ==> v@.contains(#[trigger] out@[k]),
        decreases n - i,
    {
        let a = v[i];
        proof {
            reveal(Seq::filter);
            assert(v@.subrange(0, i + 1).drop_last() =~= v@.subrange(0, i as int));
            assert(v@.subrange(0, i + 1).last() == v@[i as int]);
        }
        if !a.is_destroyed {
            out.push(a);
        }
        i = i + 1;
    }
    proof {
        assert(v@.subrange(0, n as int) =~= v@);
    }
    *v = out;
}

/// Keeps the bullets whose lifetime has not expired, in order.
fn retain_bullets(v: &mut Vec<Bullet>)
    ensures
        final(v)@ == old(v)@.filter(|b: Bullet| bullet_lives(b)),
        forall|i: int| 0 <= i < final(v)@.len() ==> old(v)@.contains(#[trigger] final(v)@[i]),
{
    let n = v.len();
    let mut out: Vec<Bullet> = Vec::new();
    let mut i: usize = 0;
    proof {
        reveal(Seq::filter);
        assert(old(v)@.subrange(0, 0).filter(|b: Bullet| bullet_lives(b)) =~= Seq::<
            Bullet,
        >::empty());
    }
    while i < n
        invariant
            i <= n,
            v == old(v),
            n == v@.len(),
            out@ == v@.subrange(0, i as int).filter(|b: Bullet| bullet_lives(b)),
            forall|k: int| 0 <= k < out@.len() ==> v@.contains(#[trigger] out@[k]),
        decreases n - i,
    {
        let b = v[i];
        proof {
            reveal(Seq::filter);
            assert(v@.subrange(0, i + 1).drop_last() =~= v@.subrange(0, i as int));
            assert(v@.subrange(0, i + 1).last() == v@[i as int]);
        }
        if b.life_timer > 0 {
            out.push(b);
        }
        i = i + 1;
    }
    proof {
        assert(v@.subrange(0, n as int) =~= v@);
    }
    *v = out;
}

/// Keeps the explosions whose lifetime has not expired, in order.
fn retain_explosions(v: &mut Vec<Explosion>)
    ensures
        final(v)@ == old(v)@.filter(|e: Explosion| explosion_lives(e)),
        forall|i: int| 0 <= i < final(v)@.len() ==> old(v)@.contains(#[trigger] final(v)@[i]),
{
    let n = v.len();
    let mut out: Vec<Explosion> = Vec::new();
    let mut i: usize = 0;
    proof {
        reveal(Seq::filter);
        assert(old(v)@.subrange(0, 0).filter(|e: Explosion| explosion_lives(e)) =~= Seq::<
            Explosion,
        >::empty());
    }
    while i < n
        invariant
            i <= n,
            v == old(v),
            n == v@.len(),
            out@ == v@.subrange(0, i as int).filter(|e: Explosion| explosion_lives(e)),
            forall|k: int| 0 <= k < out@.len() ==> v@.contains(#[trigger] out@[k]),
        decreases n - i,
    {
        let e = v[i];
        proof {
            reveal(Seq::filter);
            assert(v@.subrange(0, i + 1).drop_last() =~= v@.subrange(0, i as int));
            assert(v@.subrange(0, i + 1).last() == v@[i as int]);
        }
        if e.life_timer > 0 {
            out.push(e);
        }
        i = i + 1;
    }
    proof {
        assert(v@.subrange(0, n as int) =~= v@);
    }
    *v = out;
}

/// How the cleanup stage relates the world after (`post`) to the world
/// before (`pre`): the ship is dropped if destroyed, each collection keeps
/// exactly its surviving members in order, and state, actions and world
/// timers are untouched. Every survivor is alive and comes from `pre`.
pub open spec fn cleanup_rel(pre: Game, post: Game) -> bool {
    &&& post.state == pre.state
    &&& post.player_actions == pre.player_actions
    &&& post.break_timer == pre.break_timer
    &&& post.alien_timer == pre.alien_timer
    &&& post.ship == (match pre.ship {
        Some(s) => if s.is_destroyed {
            None
        } else {
            Some(s)
        },
        None => None::<Ship>,
    })
    &&& post.aliens@ == pre.aliens@.filter(|a: Alien| alien_lives(a))
    &&& post.asteroids@ == pre.asteroids@.filter(|a: Asteroid| asteroid_lives(a))
    &&& post.bullets@ == pre.bullets@.filter(|b: Bullet| bullet_lives(b))
    &&& post.explosions@ == pre.explosions@.filter(|e: Explosion| explosion_lives(e))
    &&& forall|i: int| 0 <= i < post.aliens@.len() ==> alien_lives(#[trigger] post.aliens@[i])
        && pre.aliens@.contains(post.aliens@[i])
    &&& forall|i: int| 0 <= i < post.asteroids@.len() ==> asteroid_lives(
        #[trigger] post.asteroids@[i],
    ) && pre.asteroids@.contains(post.asteroids@[i])
    &&& forall|i: int| 0 <= i < post.bullets@.len() ==> bullet_lives(#[trigger] post.bullets@[i])
        && pre.bullets@.contains(post.bullets@[i])
    &&& forall|i: int| 0 <= i < post.explosions@.len() ==> explosion_lives(
        #[trigger] post.explosions@[i],
    ) && pre.explosions@.contains(post.explosions@[i])
}

/// Removes the ship if destroyed and filters out destroyed aliens and
/// asteroids and expired bullets and explosions, exactly as `cleanup_rel`
/// states.
pub fn update(game: &mut Game, cfg: &Config)
    requires
        old(game).entities_wf(cfg),
        cfg.wf(),
    ensures
        final(game).entities_wf(cfg),
        cleanup_rel(*old(game), *final(game)),
{
    let ship = game.ship;
    game.ship = match ship {
        Some(s) => if s.is_destroyed {
            None
        } else {
            Some(s)
        },
        None => None,
    };
    retain_aliens(&mut game.aliens);
    retain_bullets(&mut game.bullets);
    retain_asteroids(&mut game.asteroids);
    retain_explosions(&mut game.explosions);
    proof {
        assert forall|i: int| 0 <= i < game.aliens@.len() implies (#[trigger] game.aliens@[i]).wf(
            cfg,
        ) by {
            assert(old(game).aliens@.contains(game.aliens@[i]));
        }
        assert forall|i: int| 0 <= i < game.asteroids@.len() implies (
        #[trigger] game.asteroids@[i]).wf(cfg) by {
            assert(old(game).asteroids@.contains(game.asteroids@[i]));
        }
        assert forall|i: int| 0 <= i < game.bullets@.len() implies (#[trigger] game.bullets@[
            i
        ]).wf(cfg) by {
            assert(old(game).bullets@.contains(game.bullets@[i]));
        }
        assert forall|i: int| 0 <= i < game.explosions@.len() implies (
        #[trigger] game.explosions@[i]).wf(cfg) by {
            assert(old(game).explosions@.contains(game.explosions@[i]));
        }
        assert forall|i: int| 0 <= i < game.aliens@.len() implies alien_lives(
            #[trigger] game.aliens@[i],
        ) by {
            old(game).aliens@.lemma_filter_pred(|a: Alien| alien_lives(a), i);
        }
        assert forall|i: int| 0 <= i < game.asteroids@.len() implies asteroid_lives(
            #[trigger] game.asteroids@[i],
        ) by {
            old(game).asteroids@.lemma_filter_pred(|a: Asteroid| asteroid_lives(a), i);
        }
        assert forall|i: int| 0 <= i < game.bullets@.len() implies bullet_lives(
            #[trigger] game.bullets@[i],
        ) by {
            old(game).bullets@.lemma_filter_pred(|b: Bullet| bullet_lives(b), i);
        }
        assert forall|i: int| 0 <= i < game.explosions@.len() implies explosion_lives(
            #[trigger] game.explosions@[i],
        ) by {
            old(game).explosions@.lemma_filter_pred(|e: Explosion| explosion_lives(e), i);
        }
    }
}

} // verus!
