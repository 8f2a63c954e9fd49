//! AI stage: each alien independently runs two countdowns. On shift expiry
//! its heading is nudged by a random multiple of 45 degrees, clamped to 45
//! degrees around the home angle its entry edge fixed — a wandering but
//! biased horizontal drift. On shoot expiry (and only while a ship exists)
//! it fires a bullet aimed at the ship, offset from its center by half its
//! hit radius along the firing direction. An alien past the far horizontal
//! edge (beyond the exit margin) is marked destroyed; that is how aliens
//! leave the level instead of wrapping.

use crate::cfg::Config;
use crate::entity::{Alien, AlienDirection, Body, Bullet, Ship};
use crate::game::Game;
use crate::systems::moving::{offset_pos, offset_position};
use crate::trig::{aim_angle, spec_aim};
use vstd::pervasive::VecAdditionalExecFns;
use vstd::prelude::*;

verus! {

/// Clamps a signed degree offset to 45 degrees either way.
pub open spec fn clamp45(x: int) -> int {
    if x < -45 {
        -45
    } else if x > 45 {
        45
    } else {
        x
    }
}

/// The signed offset of a near-home heading from its home angle.
pub open spec fn angle_offset(angle: int, direction: AlienDirection) -> int {
    match direction {
        AlienDirection::ToRight => if angle >= 315 {
            angle - 360
        } else {
            angle
        },
        AlienDirection::ToLeft => angle - 180,
    }
}

/// One heading shift: the roll (0 to 3, standing for -2 to 1 steps of 45
/// degrees) nudges the offset from home, clamped to 45 degrees either way,
/// and the heading is renormalized into `[0, 360)`.
pub open spec fn shifted_angle(angle: int, direction: AlienDirection, roll: u32) -> int {
    let off = clamp45(angle_offset(angle, direction) + 45 * (roll - 2));
    match direction {
        AlienDirection::ToRight => if off < 0 {
            360 + off
        } else {
            off
        },
        AlienDirection::ToLeft => 180 + off,
    }
}

/// One alien after its AI step: the shift timer, on expiry, rearms and
/// shifts the heading; the shoot timer, on expiry with a ship in play,
/// rearms (the shot itself is appended to the bullets); and an alien past
/// the exit margin is marked destroyed.
pub open spec fn ai_alien(a: Alien, has_ship: bool, roll: u32, cfg: &Config) -> Alien {
    let a1 = if a.shift_timer == 0 {
        Alien {
            shift_timer: cfg.alien_shift_period,
            body: Body {
                angle: shifted_angle(a.body.angle as int, a.direction, roll) as u32,
                ..a.body
            },
            ..a
        }
    } else {
        a
    };
    let a2 = if a1.weapon_cooldown_timer == 0 && has_ship {
        Alien { weapon_cooldown_timer: cfg.alien_shoot_period, ..a1 }
    } else {
        a1
    };
    if a2.position.x < -(cfg.alien_exit_margin as int) || a2.position.x > cfg.arena_width
        + cfg.alien_exit_margin {
        Alien { is_destroyed: true, ..a2 }
    } else {
        a2
    }
}

/// The bullet an alien fires at the ship: aimed by best whole-degree
/// alignment with the ship's direction, spawned half the alien's hit radius
/// from its center along the firing direction.
pub open spec fn alien_shot(a: Alien, s: Ship, cfg: &Config) -> Bullet {
    let aim = spec_aim(
        s.position.x - a.position.x as int,
        s.position.y - a.position.y as int,
    );
    Bullet::spec_new(
        offset_pos(a.position, aim, a.body.radius as int / 2, cfg),
        aim as u32,
        Some(a.kind),
        cfg,
    )
}

/// The bullets this frame's AI step fires, in alien order.
pub open spec fn ai_bullets(aliens: Seq<Alien>, ship: Option<Ship>, cfg: &Config) -> Seq<Bullet>
    decreases aliens.len(),
{
    if aliens.len() == 0 {
        Seq::empty()
    } else {
        let rest = ai_bullets(aliens.drop_last(), ship, cfg);
        match ship {
            Some(s) => if aliens.last().weapon_cooldown_timer == 0 {
                rest.push(alien_shot(aliens.last(), s, cfg))
            } else {
                rest
            },
            None => rest,
        }
    }
}

/// How the AI stage relates the world after (`post`) to the world before
/// (`pre`): every alien takes its `ai_alien` step with its shift roll, the
/// shots of `ai_bullets` are appended in alien order, no surviving alien is
/// beyond the exit margin, and nothing else of the world changes.
pub open spec fn ai_rel(pre: Game, post: Game, shift_rolls: Seq<u32>, cfg: &Config) -> bool {
    &&& post.state == pre.state
    &&& post.player_actions == pre.player_actions
    &&& post.break_timer == pre.break_timer
    &&& post.alien_timer == pre.alien_timer
    &&& post.ship == pre.ship
    &&& post.asteroids == pre.asteroids
    &&& post.explosions == pre.explosions
    &&& post.aliens@.len() == pre.aliens@.len()
    &&& forall|i: int| 0 <= i < pre.aliens@.len() ==> post.aliens@[i] == ai_alien(
        pre.aliens@[i],
        pre.ship is Some,
        shift_rolls[i],
        cfg,
    )
    &&& forall|i: int|
        0 <= i < post.aliens@.len() && !(#[trigger] post.aliens@[i]).is_destroyed ==> -(
        cfg.alien_exit_margin as int) <= post.aliens@[i].position.x <= cfg.arena_width
            + cfg.alien_exit_margin
    &&& post.bullets@ == pre.bullets@ + ai_bullets(pre.aliens@, pre.ship, cfg)
}

/// Runs every alien's AI step: heading shifts on shift-timer expiry, a shot
/// at the ship on shoot-timer expiry while a ship exists, and destruction
/// past the exit margin, exactly as `ai_rel` states.
pub fn update(game: &mut Game, cfg: &Config, shift_rolls: &Vec<u32>)
    requires
        old(game).entities_wf(cfg),
        cfg.wf(),
        shift_rolls@.len() >= old(game).aliens@.len(),
        forall|i: int| 0 <= i < shift_rolls@.len() ==> (#[trigger] shift_rolls@[i]) < 4,
    ensures
        final(game).entities_wf(cfg),
        ai_rel(*old(game), *final(game), shift_rolls@, cfg),
{
    let n = game.aliens.len();
    let mut i: usize = 0;
    proof {
        assert(ai_bullets(old(game).aliens@.subrange(0, 0), old(game).ship, cfg) =~= Seq::<
            Bullet,
        >::empty());
        assert(game.bullets@ =~= old(game).bullets@ + ai_bullets(
            old(game).aliens@.subrange(0, 0),
            old(game).ship,
            cfg,
        ));
    }
    while i < n
        invariant
            i <= n,
            cfg.wf(),
            game.state == old(game).state,
            game.player_actions == old(game).player_actions,
            game.break_timer == old(game).break_timer,
            game.alien_timer == old(game).alien_timer,
            game.ship == old(game).ship,
            game.asteroids == old(game).asteroids,
            game.explosions == old(game).explosions,
            match old(game).ship {
                Some(s) => s.wf(cfg),
                None => true,
            },
            shift_rolls@.len() >= n,
            forall|j: int| 0 <= j < shift_rolls@.len() ==> (#[trigger] shift_rolls@[j]) < 4,
            game.aliens@.len() == n == old(game).aliens@.len(),
            forall|j: int| 0 <= j < n ==> (#[trigger] old(game).aliens@[j]).wf(cfg),
            forall|j: int| i <= j < n ==> game.aliens@[j] == old(game).aliens@[j],
            forall|j: int| 0 <= j < i ==> game.aliens@[j] == ai_alien(
                old(game).aliens@[j],
                old(game).ship is Some,
                shift_rolls@[j],
                cfg,
            ),
            forall|j: int| 0 <= j < i ==> (#[trigger] game.aliens@[j]).wf(cfg),
            game.bullets@ == old(game).bullets@ + ai_bullets(
                old(game).aliens@.subrange(0, i as int),
                old(game).ship,
                cfg,
            ),
            forall|j: int| 0 <= j < game.bullets@.len() ==> (#[trigger] game.bullets@[j]).wf(cfg),
        decreases n - i,
    {
        let mut a = game.aliens[i];
        let ghost a_orig = a;
        proof {
            assert(old(game).aliens@.subrange(0, i + 1).drop_last() =~= old(
                game,
            ).aliens@.subrange(0, i as int));
            assert(old(game).aliens@.subrange(0, i + 1).last() == old(game).aliens@[i as int]);
        }
        if a.shift_timer == 0 {
            a.shift_timer = cfg.alien_shift_period;
            let roll = shift_rolls[i];
            let off0: i64 = match a.direction {
                AlienDirection::ToRight => if a.body.angle >= 315 {
                    a.body.angle as i64 - 360
                } else {
                    a.body.angle as i64
                },
                AlienDirection::ToLeft => a.body.angle as i64 - 180,
            };
            let off1: i64 = off0 + 45 * (roll as i64 - 2);
            let off: i64 = if off1 < -45 {
                -45
            } else if off1 > 45 {
                45
            } else {
                off1
            };
            a.body.angle = match a.direction {
                AlienDirection::ToRight => if off < 0 {
                    (360 + off) as u32
                } else {
                    off as u32
                },
                AlienDirection::ToLeft => (180 + off) as u32,
            };
        }
        if a.weapon_cooldown_timer == 0 && game.ship.is_some() {
            a.weapon_cooldown_timer = cfg.alien_shoot_period;
            let ship = game.ship.unwrap();
            let aim = aim_angle(
                ship.position.x - a.position.x,
                ship.position.y - a.position.y,
            );
            let muzzle = offset_position(a.position, aim, a.body.radius / 2, cfg);
            let b = Bullet::new(muzzle, aim, Some(a.kind), cfg);
            game.bullets.push(b);
        }
        let exit_margin = cfg.alien_exit_margin as i64;
        if a.position.x < -exit_margin || a.position.x > cfg.arena_width as i64 + exit_margin {
            a.is_destroyed = true;
        }
        proof {
            assert(a == ai_alien(
                old(game).aliens@[i as int],
                old(game).ship is Some,
                shift_rolls@[i as int],
                cfg,
            ));
        }
        game.aliens.set(i, a);
        i = i + 1;
    }
    proof {
        assert(old(game).aliens@.subrange(0, n as int) =~= old(game).aliens@);
    }
}

} // verus!
