//! Timers stage: every per-entity and per-world countdown decreases by the
//! frame's elapsed milliseconds, floored at zero. Frozen entirely while the
//! game is paused — even bullet lifetimes stop ticking.

use crate::cfg::{Config, MAX_FRAME_MILLIS};
use crate::entity::{Alien, Bullet, Explosion, GameState, Ship};
use crate::game::Game;
use vstd::pervasive::VecAdditionalExecFns;
use vstd::prelude::*;

verus! {

/// A countdown after `dt` elapsed: decremented and floored at zero.
pub open spec fn ticked(t: u32, dt: u32) -> u32 {
    if t <= dt {
        0
    } else {
        (t - dt) as u32
    }
}

/// A countdown after `dt` elapsed: decremented and floored at zero.
fn tick(t: u32, dt: u32) -> (r: u32)
    ensures
        r == ticked(t, dt),
{
    if t <= dt {
        0
    } else {
        t - dt
    }
}

/// Bullet lifetimes after `dt` elapsed.
fn tick_bullets(bullets: &mut Vec<Bullet>, dt: u32)
    ensures
        final(bullets)@.len() == old(bullets)@.len(),
        forall|i: int| 0 <= i < old(bullets)@.len() ==> final(bullets)@[i] == (Bullet {
            life_timer: ticked(old(bullets)@[i].life_timer, dt),
            ..old(bullets)@[i]
        }),
{
    let n = bullets.len();
    let mut i: usize = 0;
    while i < n
        invariant
            i <= n,
            bullets@.len() == n == old(bullets)@.len(),
            forall|j: int| 0 <= j < i ==> bullets@[j] == (Bullet {
                life_timer: ticked(old(bullets)@[j].life_timer, dt),
                ..old(bullets)@[j]
            }),
            forall|j: int| i <= j < n ==> bullets@[j] == old(bullets)@[j],
        decreases n - i,
    {
        let mut b = bullets[i];
        b.life_timer = tick(b.life_timer, dt);
        bullets.set(i, b);
        i = i + 1;
    }
}

/// Explosion lifetimes after `dt` elapsed.
fn tick_explosions(explosions: &mut Vec<Explosion>, dt: u32)
    ensures
        final(explosions)@.len() == old(explosions)@.len(),
        forall|i: int| 0 <= i < old(explosions)@.len() ==> final(explosions)@[i] == (Explosion {
            life_timer: ticked(old(explosions)@[i].life_timer, dt),
            ..old(explosions)@[i]
        }),
{
    let n = explosions.len();
    let mut i: usize = 0;
    while i < n
        invariant
            i <= n,
            explosions@.len() == n == old(explosions)@.len(),
            forall|j: int| 0 <= j < i ==> explosions@[j] == (Explosion {
                life_timer: ticked(old(explosions)@[j].life_timer, dt),
                ..old(explosions)@[j]
            }),
            forall|j: int| i <= j < n ==> explosions@[j] == old(explosions)@[j],
        decreases n - i,
    {
        let mut e = explosions[i];
        e.life_timer = tick(e.life_timer, dt);
        explosions.set(i, e);
        i = i + 1;
    }
}

/// Alien shift and shoot countdowns after `dt` elapsed.
fn tick_aliens(aliens: &mut Vec<Alien>, dt: u32)
    ensures
        final(aliens)@.len() == old(aliens)@.len(),
        forall|i: int| 0 <= i < old(aliens)@.len() ==> final(aliens)@[i] == (Alien {
            shift_timer: ticked(old(aliens)@[i].shift_timer, dt),
            weapon_cooldown_timer: ticked(old(aliens)@[i].weapon_cooldown_timer, dt),
            ..old(aliens)@[i]
        }),
{
    let n = aliens.len();
    let mut i: usize = 0;
    while i < n
        invariant
            i <= n,
            aliens@.len() == n == old(aliens)@.len(),
            forall|j: int| 0 <= j < i ==> aliens@[j] == (Alien {
                shift_timer: ticked(old(aliens)@[j].shift_timer, dt),
                weapon_cooldown_timer: ticked(old(aliens)@[j].weapon_cooldown_timer, dt),
                ..old(aliens)@[j]
            }),
            forall|j: int| i <= j < n ==> aliens@[j] == old(aliens)@[j],
        decreases n - i,
    {
        let mut a = aliens[i];
        a.shift_timer = tick(a.shift_timer, dt);
        a.weapon_cooldown_timer = tick(a.weapon_cooldown_timer, dt);
        aliens.set(i, a);
        i = i + 1;
    }
}

/// How the timers stage relates the world after (`post`) to the world
/// before (`pre`): frozen entirely while paused; otherwise every countdown
/// — the world's alien and break timers, the ship's weapon cooldown, bullet
/// and explosion lifetimes and the aliens' shift and shoot timers — is
/// decremented by `dt` and floored at zero, and nothing else changes.
pub open spec fn timers_rel(pre: Game, post: Game, dt: u32) -> bool {
    &&& pre.state == GameState::Pause ==> post == pre
    &&& pre.state != GameState::Pause ==> {
        &&& post.state == pre.state
        &&& post.player_actions == pre.player_actions
        &&& post.alien_timer == ticked(pre.alien_timer, dt)
        &&& post.break_timer == ticked(pre.break_timer, dt)
        &&& post.ship == (match pre.ship {
            Some(s) => Some(
                Ship { weapon_cooldown_timer: ticked(s.weapon_cooldown_timer, dt), ..s },
            ),
            None => None::<Ship>,
        })
        &&& post.asteroids == pre.asteroids
        &&& post.bullets@.len() == pre.bullets@.len()
        &&& forall|i: int| 0 <= i < pre.bullets@.len() ==> post.bullets@[i] == (Bullet {
            life_timer: ticked(pre.bullets@[i].life_timer, dt),
            ..pre.bullets@[i]
        })
        &&& post.explosions@.len() == pre.explosions@.len()
        &&& forall|i: int| 0 <= i < pre.explosions@.len() ==> post.explosions@[i] == (Explosion {
            life_timer: ticked(pre.explosions@[i].life_timer, dt),
            ..pre.explosions@[i]
        })
        &&& post.aliens@.len() == pre.aliens@.len()
        &&& forall|i: int| 0 <= i < pre.aliens@.len() ==> post.aliens@[i] == (Alien {
            shift_timer: ticked(pre.aliens@[i].shift_timer, dt),
            weapon_cooldown_timer: ticked(pre.aliens@[i].weapon_cooldown_timer, dt),
            ..pre.aliens@[i]
        })
    }
}

/// Advances every countdown by `dt` milliseconds unless the game is paused,
/// exactly as `timers_rel` states.
pub fn update(game: &mut Game, cfg: &Config, dt: u32)
    requires
        old(game).entities_wf(cfg),
        cfg.wf(),
        dt <= MAX_FRAME_MILLIS,
    ensures
        final(game).entities_wf(cfg),
        timers_rel(*old(game), *final(game), dt),
{
    match game.state {
        GameState::Pause => (),
        _ => {
            game.alien_timer = tick(game.alien_timer, dt);
            game.break_timer = tick(game.break_timer, dt);
            let ship = game.ship;
            if let Some(mut s) = ship {
                s.weapon_cooldown_timer = tick(s.weapon_cooldown_timer, dt);
                game.ship = Some(s);
            }
            tick_explosions(&mut game.explosions, dt);
            tick_bullets(&mut game.bullets, dt);
            tick_aliens(&mut game.aliens, dt);
        },
    }
}

} // verus!
