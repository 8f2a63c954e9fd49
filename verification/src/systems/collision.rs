//! Collision stage: exhaustive pairwise circle-intersection tests across
//! the fixed list of category pairs (alien-ship, enemy-bullet-ship,
//! enemy-bullet-asteroid, player-bullet-enemy-bullet, player-bullet-alien,
//! player-bullet-asteroid, asteroid-ship, asteroid-alien). Pure detection:
//! an intersecting pair has `is_hit` set on both members and nothing else
//! changes. Same-origin fire is never tested against itself.

use crate::cfg::Config;
use crate::entity::{Alien, Asteroid, Body, Bullet, Ship, Vec2};
use crate::game::Game;
use vstd::prelude::*;

verus! {

/// Two circles intersect: the squared distance of the centers is at most
/// the square of the summed radii.
pub open spec fn hits(pa: Vec2, ba: Body, pb: Vec2, bb: Body) -> bool {
    let dx = pa.x - pb.x;
    let dy = pa.y - pb.y;
    dx * dx + dy * dy <= (ba.radius + bb.radius) * (ba.radius + bb.radius)
}

/// Circle intersection does not depend on the order of the two bodies, so
/// flagging can never be one-sided.
pub proof fn lemma_hits_symmetric(pa: Vec2, ba: Body, pb: Vec2, bb: Body)
    ensures
        hits(pa, ba, pb, bb) == hits(pb, bb, pa, ba),
{
    let dx = pa.x - pb.x;
    let dy = pa.y - pb.y;
    assert(dx * dx == (-dx) * (-dx) && dy * dy == (-dy) * (-dy)) by (nonlinear_arith);
}

/// A coordinate within range of every collision test's arithmetic.
pub open spec fn pos_ok(p: Vec2) -> bool {
    &&& -200_000_000 <= p.x <= 200_000_000
    &&& -200_000_000 <= p.y <= 200_000_000
}

/// The same body with its hit flag replaced.
pub open spec fn with_hit(b: Body, h: bool) -> Body {
    Body { is_hit: h, ..b }
}

/// Whether the two circles intersect.
fn intersects(a_pos: Vec2, a_body: &Body, b_pos: Vec2, b_body: &Body) -> (r: bool)
    requires
        a_body.wf(),
        b_body.wf(),
        pos_ok(a_pos),
        pos_ok(b_pos),
    ensures
        r == hits(a_pos, *a_body, b_pos, *b_body),
{
    let dx: i64 = a_pos.x - b_pos.x;
    let dy: i64 = a_pos.y - b_pos.y;
    proof {
        assert(0 <= dx * dx <= 160_000_000_000_000_000 && 0 <= dy * dy
            <= 160_000_000_000_000_000) by (nonlinear_arith)
            requires
                -400_000_000 <= dx <= 400_000_000,
                -400_000_000 <= dy <= 400_000_000,
        ;
        assert((a_body.radius + b_body.radius) * (a_body.radius + b_body.radius)
            <= 40_000_000_000) by (nonlinear_arith)
            requires
                0 <= a_body.radius + b_body.radius <= 200_000,
        ;
    }
    let rsum: i64 = (a_body.radius + b_body.radius) as i64;
    dx * dx + dy * dy <= rsum * rsum
}

/// Flags both bodies as hit exactly when their circles intersect: never
/// only one side. A body already flagged stays flagged.
pub fn do_collision(a_pos: Vec2, a_body: &mut Body, b_pos: Vec2, b_body: &mut Body)
    requires
        old(a_body).wf(),
        old(b_body).wf(),
        pos_ok(a_pos),
        pos_ok(b_pos),
    ensures
        *final(a_body) == with_hit(
            *old(a_body),
            old(a_body).is_hit || hits(a_pos, *old(a_body), b_pos, *old(b_body)),
        ),
        *final(b_body) == with_hit(
            *old(b_body),
            old(b_body).is_hit || hits(a_pos, *old(a_body), b_pos, *old(b_body)),
        ),
        !old(a_body).is_hit && !old(b_body).is_hit ==> {
            &&& final(a_body).is_hit == hits(a_pos, *old(a_body), b_pos, *old(b_body))
            &&& final(a_body).is_hit == final(b_body).is_hit
        },
{
    let is_intersecting = intersects(a_pos, a_body, b_pos, b_body);
    if is_intersecting {
        a_body.is_hit = true;
        b_body.is_hit = true;
    }
}

/// Whether the ship (if any) intersects the given circle.
pub open spec fn ship_hits(ship: Option<Ship>, p: Vec2, b: Body) -> bool {
    match ship {
        Some(s) => hits(s.position, s.body, p, b),
        None => false,
    }
}

/// Whether some alien intersects the given circle.
pub open spec fn any_alien_hits(aliens: Seq<Alien>, p: Vec2, b: Body) -> bool {
    exists|j: int| 0 <= j < aliens.len() && hits((#[trigger] aliens[j]).position, aliens[j].body, p, b)
}

/// Whether some asteroid intersects the given circle.
pub open spec fn any_asteroid_hits(asteroids: Seq<Asteroid>, p: Vec2, b: Body) -> bool {
    exists|j: int| 0 <= j < asteroids.len() && hits(
        (#[trigger] asteroids[j]).position,
        asteroids[j].body,
        p,
        b,
    )
}

/// Whether some bullet of the given origin intersects the given circle.
pub open spec fn any_bullet_hits(bullets: Seq<Bullet>, from_enemy: bool, p: Vec2, b: Body) -> bool {
    exists|j: int| 0 <= j < bullets.len() && (#[trigger] bullets[j]).from_enemy == from_enemy
        && hits(bullets[j].position, bullets[j].body, p, b)
}

/// What flags the ship: an alien, an enemy bullet, or an asteroid.
pub open spec fn ship_hit_cond(g: Game, p: Vec2, b: Body) -> bool {
    ||| any_alien_hits(g.aliens@, p, b)
    ||| any_bullet_hits(g.bullets@, true, p, b)
    ||| any_asteroid_hits(g.asteroids@, p, b)
}

/// What flags an alien: the ship, a player bullet, or an asteroid.
pub open spec fn alien_hit_cond(g: Game, p: Vec2, b: Body) -> bool {
    ||| ship_hits(g.ship, p, b)
    ||| any_bullet_hits(g.bullets@, false, p, b)
    ||| any_asteroid_hits(g.asteroids@, p, b)
}

/// What flags a bullet: enemy fire collides with the ship, asteroids and
/// player fire; player fire collides with enemy fire, aliens and
/// asteroids. Same-origin fire never collides.
pub open spec fn bullet_hit_cond(g: Game, p: Vec2, b: Body, from_enemy: bool) -> bool {
    if from_enemy {
        ||| ship_hits(g.ship, p, b)
        ||| any_asteroid_hits(g.asteroids@, p, b)
        ||| any_bullet_hits(g.bullets@, false, p, b)
    } else {
        ||| any_bullet_hits(g.bullets@, true, p, b)
        ||| any_alien_hits(g.aliens@, p, b)
        ||| any_asteroid_hits(g.asteroids@, p, b)
    }
}

/// What flags an asteroid: any bullet, the ship, or an alien.
pub open spec fn asteroid_hit_cond(g: Game, p: Vec2, b: Body) -> bool {
    ||| any_bullet_hits(g.bullets@, true, p, b)
    ||| any_bullet_hits(g.bullets@, false, p, b)
    ||| ship_hits(g.ship, p, b)
    ||| any_alien_hits(g.aliens@, p, b)
}

/// Whether the ship, if present, intersects the given circle.
fn scan_ship(ship: &Option<Ship>, p: Vec2, b: &Body) -> (r: bool)
    requires
        b.wf(),
        pos_ok(p),
        match ship {
            Some(s) => s.body.wf() && pos_ok(s.position),
            None => true,
        },
    ensures
        r == ship_hits(*ship, p, *b),
{
    match ship {
        Some(s) => intersects(s.position, &s.body, p, b),
        None => false,
    }
}

/// Whether any alien intersects the given circle.
fn scan_aliens(aliens: &Vec<Alien>, p: Vec2, b: &Body) -> (r: bool)
    requires
        b.wf(),
        pos_ok(p),
        forall|i: int| 0 <= i < aliens@.len() ==> (#[trigger] aliens@[i]).body.wf() && pos_ok(
            aliens@[i].position,
        ),
    ensures
        r == any_alien_hits(aliens@, p, *b),
{
    let n = aliens.len();
    let mut i: usize = 0;
    while i < n
        invariant
            i <= n,
            n == aliens@.len(),
            b.wf(),
            pos_ok(p),
            forall|j: int| 0 <= j < n ==> (#[trigger] aliens@[j]).body.wf() && pos_ok(
                aliens@[j].position,
            ),
            forall|j: int| 0 <= j < i ==> !hits((#[trigger] aliens@[j]).position, aliens@[j].body, p, *b),
        decreases n - i,
    {
        let a = aliens[i];
        if intersects(a.position, &a.body, p, b) {
            return true;
        }
        i = i + 1;
    }
    false
}

/// Whether any asteroid intersects the given circle.
fn scan_asteroids(asteroids: &Vec<Asteroid>, p: Vec2, b: &Body) -> (r: bool)
    requires
        b.wf(),
        pos_ok(p),
        forall|i: int| 0 <= i < asteroids@.len() ==> (#[trigger] asteroids@[i]).body.wf() && pos_ok(
            asteroids@[i].position,
        ),
    ensures
        r == any_asteroid_hits(asteroids@, p, *b),
{
    let n = asteroids.len();
    let mut i: usize = 0;
    while i < n
        invariant
            i <= n,
            n == asteroids@.len(),
            b.wf(),
            pos_ok(p),
            forall|j: int| 0 <= j < n ==> (#[trigger] asteroids@[j]).body.wf() && pos_ok(
                asteroids@[j].position,
            ),
            forall|j: int| 0 <= j < i ==> !hits(
                (#[trigger] asteroids@[j]).position,
                asteroids@[j].body,
                p,
                *b,
            ),
        decreases n - i,
    {
        let a = asteroids[i];
        if intersects(a.position, &a.body, p, b) {
            return true;
        }
        i = i + 1;
    }
    false
}

/// Whether any bullet of the given origin intersects the given circle.
fn scan_bullets(bullets: &Vec<Bullet>, from_enemy: bool, p: Vec2, b: &Body) -> (r: bool)
    requires
        b.wf(),
        pos_ok(p),
        forall|i: int| 0 <= i < bullets@.len() ==> (#[trigger] bullets@[i]).body.wf() && pos_ok(
            bullets@[i].position,
        ),
    ensures
        r == any_bullet_hits(bullets@, from_enemy, p, *b),
{
    let n = bullets.len();
    let mut i: usize = 0;
    while i < n
        invariant
            i <= n,
            n == bullets@.len(),
            b.wf(),
            pos_ok(p),
            forall|j: int| 0 <= j < n ==> (#[trigger] bullets@[j]).body.wf() && pos_ok(
                bullets@[j].position,
            ),
            forall|j: int| 0 <= j < i ==> !((#[trigger] bullets@[j]).from_enemy == from_enemy
                && hits(bullets@[j].position, bullets@[j].body, p, *b)),
        decreases n - i,
    {
        let bl = bullets[i];
        if bl.from_enemy == from_enemy {
            if intersects(bl.position, &bl.body, p, b) {
                return true;
            }
        }
        i = i + 1;
    }
    false
}

/// The aliens with this frame's hit flags applied, computed against the
/// frame's pre-collision world.
fn flagged_aliens(
    aliens: &Vec<Alien>,
    ship: &Option<Ship>,
    bullets: &Vec<Bullet>,
    asteroids: &Vec<Asteroid>,
    ghost_g: Ghost<Game>,
) -> (r: Vec<Alien>)
    requires
        ghost_g@.ship == *ship,
        ghost_g@.bullets@ == bullets@,
        ghost_g@.asteroids@ == asteroids@,
        forall|i: int| 0 <= i < aliens@.len() ==> (#[trigger] aliens@[i]).body.wf() && pos_ok(
            aliens@[i].position,
        ),
        forall|i: int| 0 <= i < bullets@.len() ==> (#[trigger] bullets@[i]).body.wf() && pos_ok(
            bullets@[i].position,
        ),
        forall|i: int| 0 <= i < asteroids@.len() ==> (#[trigger] asteroids@[i]).body.wf() && pos_ok(
            asteroids@[i].position,
        ),
        match *ship {
            Some(s) => s.body.wf() && pos_ok(s.position),
            None => true,
        },
    ensures
        r@.len() == aliens@.len(),
        forall|i: int| 0 <= i < aliens@.len() ==> r@[i] == (Alien {
            body: with_hit(
                aliens@[i].body,
                aliens@[i].body.is_hit || alien_hit_cond(
                    ghost_g@,
                    aliens@[i].position,
                    aliens@[i].body,
                ),
            ),
            ..aliens@[i]
        }),
{
    let n = aliens.len();
    let mut out: Vec<Alien> = Vec::new();
    let mut i: usize = 0;
    while i < n
        invariant
            i <= n,
            n == aliens@.len(),
            out@.len() == i,
            ghost_g@.ship == *ship,
            ghost_g@.bullets@ == bullets@,
            ghost_g@.asteroids@ == asteroids@,
            forall|j: int| 0 <= j < n ==> (#[trigger] aliens@[j]).body.wf() && pos_ok(
                aliens@[j].position,
            ),
            forall|j: int| 0 <= j < bullets@.len() ==> (#[trigger] bullets@[j]).body.wf() && pos_ok(
                bullets@[j].position,
            ),
            forall|j: int| 0 <= j < asteroids@.len() ==> (#[trigger] asteroids@[j]).body.wf()
                && pos_ok(asteroids@[j].position),
            match *ship {
                Some(s) => s.body.wf() && pos_ok(s.position),
                None => true,
            },
            forall|j: int| 0 <= j < i ==> out@[j] == (Alien {
                body: with_hit(
                    aliens@[j].body,
                    aliens@[j].body.is_hit || alien_hit_cond(
                        ghost_g@,
                        aliens@[j].position,
                        aliens@[j].body,
                    ),
                ),
                ..aliens@[j]
            }),
        decreases n - i,
    {
        let mut a = aliens[i];
        let hit = scan_ship(ship, a.position, &a.body) || scan_bullets(
            bullets,
            false,
            a.position,
            &a.body,
        ) || scan_asteroids(asteroids, a.position, &a.body);
        a.body.is_hit = a.body.is_hit || hit;
        out.push(a);
        i = i + 1;
    }
    out
}

/// The bullets with this frame's hit flags applied, computed against the
/// frame's pre-collision world.
fn flagged_bullets(
    bullets: &Vec<Bullet>,
    ship: &Option<Ship>,
    aliens: &Vec<Alien>,
    asteroids: &Vec<Asteroid>,
    ghost_g: Ghost<Game>,
) -> (r: Vec<Bullet>)
    requires
        ghost_g@.ship == *ship,
        ghost_g@.bullets@ == bullets@,
        ghost_g@.aliens@ == aliens@,
        ghost_g@.asteroids@ == asteroids@,
        forall|i: int| 0 <= i < aliens@.len() ==> (#[trigger] aliens@[i]).body.wf() && pos_ok(
            aliens@[i].position,
        ),
        forall|i: int| 0 <= i < bullets@.len() ==> (#[trigger] bullets@[i]).body.wf() && pos_ok(
            bullets@[i].position,
        ),
        forall|i: int| 0 <= i < asteroids@.len() ==> (#[trigger] asteroids@[i]).body.wf() && pos_ok(
            asteroids@[i].position,
        ),
        match *ship {
            Some(s) => s.body.wf() && pos_ok(s.position),
            None => true,
        },
    ensures
        r@.len() == bullets@.len(),
        forall|i: int| 0 <= i < bullets@.len() ==> r@[i] == (Bullet {
            body: with_hit(
                bullets@[i].body,
                bullets@[i].body.is_hit || bullet_hit_cond(
                    ghost_g@,
                    bullets@[i].position,
                    bullets@[i].body,
                    bullets@[i].from_enemy,
                ),
            ),
            ..bullets@[i]
        }),
{
    let n = bullets.len();
    let mut out: Vec<Bullet> = Vec::new();
    let mut i: usize = 0;
    while i < n
        invariant
            i <= n,
            n == bullets@.len(),
            out@.len() == i,
            ghost_g@.ship == *ship,
            ghost_g@.bullets@ == bullets@,
            ghost_g@.aliens@ == aliens@,
            ghost_g@.asteroids@ == asteroids@,
            forall|j: int| 0 <= j < aliens@.len() ==> (#[trigger] aliens@[j]).body.wf() && pos_ok(
                aliens@[j].position,
            ),
            forall|j: int| 0 <= j < n ==> (#[trigger] bullets@[j]).body.wf() && pos_ok(
                bullets@[j].position,
            ),
            forall|j: int| 0 <= j < asteroids@.len() ==> (#[trigger] asteroids@[j]).body.wf()
                && pos_ok(asteroids@[j].position),
            match *ship {
                Some(s) => s.body.wf() && pos_ok(s.position),
                None => true,
            },
            forall|j: int| 0 <= j < i ==> out@[j] == (Bullet {
                body: with_hit(
                    bullets@[j].body,
                    bullets@[j].body.is_hit || bullet_hit_cond(
                        ghost_g@,
                        bullets@[j].position,
                        bullets@[j].body,
                        bullets@[j].from_enemy,
                    ),
                ),
                ..bullets@[j]
            }),
        decreases n - i,
    {
        let mut b = bullets[i];
        let hit = if b.from_enemy {
            scan_ship(ship, b.position, &b.body) || scan_asteroids(asteroids, b.position, &b.body)
                || scan_bullets(bullets, false, b.position, &b.body)
        } else {
            scan_bullets(bullets, true, b.position, &b.body) || scan_aliens(
                aliens,
                b.position,
                &b.body,
            ) || scan_asteroids(asteroids, b.position, &b.body)
        };
        b.body.is_hit = b.body.is_hit || hit;
        out.push(b);
        i = i + 1;
    }
    out
}

/// The asteroids with this frame's hit flags applied, computed against the
/// frame's pre-collision world.
fn flagged_asteroids(
    asteroids: &Vec<Asteroid>,
    ship: &Option<Ship>,
    aliens: &Vec<Alien>,
    bullets: &Vec<Bullet>,
    ghost_g: Ghost<Game>,
) -> (r: Vec<Asteroid>)
    requires
        ghost_g@.ship == *ship,
        ghost_g@.bullets@ == bullets@,
        ghost_g@.aliens@ == aliens@,
        forall|i: int| 0 <= i < aliens@.len() ==> (#[trigger] aliens@[i]).body.wf() && pos_ok(
            aliens@[i].position,
        ),
        forall|i: int| 0 <= i < bullets@.len() ==> (#[trigger] bullets@[i]).body.wf() && pos_ok(
            bullets@[i].position,
        ),
        forall|i: int| 0 <= i < asteroids@.len() ==> (#[trigger] asteroids@[i]).body.wf() && pos_ok(
            asteroids@[i].position,
        ),
        match *ship {
            Some(s) => s.body.wf() && pos_ok(s.position),
            None => true,
        },
    ensures
        r@.len() == asteroids@.len(),
        forall|i: int| 0 <= i < asteroids@.len() ==> r@[i] == (Asteroid {
            body: with_hit(
                asteroids@[i].body,
                asteroids@[i].body.is_hit || asteroid_hit_cond(
                    ghost_g@,
                    asteroids@[i].position,
                    asteroids@[i].body,
                ),
            ),
            ..asteroids@[i]
        }),
{
    let n = asteroids.len();
    let mut out: Vec<Asteroid> = Vec::new();
    let mut i: usize = 0;
    while i < n
        invariant
            i <= n,
            n == asteroids@.len(),
            out@.len() == i,
            ghost_g@.ship == *ship,
            ghost_g@.bullets@ == bullets@,
            ghost_g@.aliens@ == aliens@,
            forall|j: int| 0 <= j < aliens@.len() ==> (#[trigger] aliens@[j]).body.wf() && pos_ok(
                aliens@[j].position,
            ),
            forall|j: int| 0 <= j < bullets@.len() ==> (#[trigger] bullets@[j]).body.wf() && pos_ok(
                bullets@[j].position,
            ),
            forall|j: int| 0 <= j < n ==> (#[trigger] asteroids@[j]).body.wf() && pos_ok(
                asteroids@[j].position,
            ),
            match *ship {
                Some(s) => s.body.wf() && pos_ok(s.position),
                None => true,
            },
            forall|j: int| 0 <= j < i ==> out@[j] == (Asteroid {
                body: with_hit(
                    asteroids@[j].body,
                    asteroids@[j].body.is_hit || asteroid_hit_cond(
                        ghost_g@,
                        asteroids@[j].position,
                        asteroids@[j].body,
                    ),
                ),
                ..asteroids@[j]
            }),
        decreases n - i,
    {
        let mut a = asteroids[i];
        let hit = scan_bullets(bullets, true, a.position, &a.body) || scan_bullets(
            bullets,
            false,
            a.position,
            &a.body,
        ) || scan_ship(ship, a.position, &a.body) || scan_aliens(aliens, a.position, &a.body);
        a.body.is_hit = a.body.is_hit || hit;
        out.push(a);
        i = i + 1;
    }
    out
}

/// How the collision stage relates the world after (`post`) to the world
/// before (`pre`): each entity's hit flag gains exactly its category
/// condition against the pre-collision world, and nothing else changes —
/// nothing moves, nothing is destroyed, and no flag is ever cleared.
pub open spec fn collision_rel(pre: Game, post: Game) -> bool {
    &&& post.state == pre.state
    &&& post.player_actions == pre.player_actions
    &&& post.break_timer == pre.break_timer
    &&& post.alien_timer == pre.alien_timer
    &&& post.explosions == pre.explosions
    &&& post.ship == (match pre.ship {
        Some(s) => Some(
            Ship {
                body: with_hit(s.body, s.body.is_hit || ship_hit_cond(pre, s.position, s.body)),
                ..s
            },
        ),
        None => None::<Ship>,
    })
    &&& post.aliens@.len() == pre.aliens@.len()
    &&& forall|i: int| 0 <= i < pre.aliens@.len() ==> post.aliens@[i] == (Alien {
        body: with_hit(
            pre.aliens@[i].body,
            pre.aliens@[i].body.is_hit || alien_hit_cond(
                pre,
                pre.aliens@[i].position,
                pre.aliens@[i].body,
            ),
        ),
        ..pre.aliens@[i]
    })
    &&& post.bullets@.len() == pre.bullets@.len()
    &&& forall|i: int| 0 <= i < pre.bullets@.len() ==> post.bullets@[i] == (Bullet {
        body: with_hit(
            pre.bullets@[i].body,
            pre.bullets@[i].body.is_hit || bullet_hit_cond(
                pre,
                pre.bullets@[i].position,
                pre.bullets@[i].body,
                pre.bullets@[i].from_enemy,
            ),
        ),
        ..pre.bullets@[i]
    })
    &&& post.asteroids@.len() == pre.asteroids@.len()
    &&& forall|i: int| 0 <= i < pre.asteroids@.len() ==> post.asteroids@[i] == (Asteroid {
        body: with_hit(
            pre.asteroids@[i].body,
            pre.asteroids@[i].body.is_hit || asteroid_hit_cond(
                pre,
                pre.asteroids@[i].position,
                pre.asteroids@[i].body,
            ),
        ),
        ..pre.asteroids@[i]
    })
}

/// Runs the frame's collision detection: every listed category pair is
/// tested by circle intersection against the frame's pre-collision
/// positions, and each intersecting pair has both members' hit flags set,
/// exactly as `collision_rel` states.
pub fn update(game: &mut Game, cfg: &Config)
    requires
        old(game).entities_wf(cfg),
        cfg.wf(),
    ensures
        final(game).entities_wf(cfg),
        collision_rel(*old(game), *final(game)),
{
    proof {
        assert forall|i: int| 0 <= i < game.aliens@.len() implies (
        #[trigger] game.aliens@[i]).body.wf() && pos_ok(game.aliens@[i].position) by {
            assert(game.aliens@[i].wf(cfg));
        }
        assert forall|i: int| 0 <= i < game.bullets@.len() implies (
        #[trigger] game.bullets@[i]).body.wf() && pos_ok(game.bullets@[i].position) by {
            assert(game.bullets@[i].wf(cfg));
        }
        assert forall|i: int| 0 <= i < game.asteroids@.len() implies (
        #[trigger] game.asteroids@[i]).body.wf() && pos_ok(game.asteroids@[i].position) by {
            assert(game.asteroids@[i].wf(cfg));
        }
    }
    let ghost g0 = *game;
    let new_ship: Option<Ship> = match &game.ship {
        Some(s) => {
            let hit = scan_aliens(&game.aliens, s.position, &s.body) || scan_bullets(
                &game.bullets,
                true,
                s.position,
                &s.body,
            ) || scan_asteroids(&game.asteroids, s.position, &s.body);
            let mut s2 = *s;
            s2.body.is_hit = s2.body.is_hit || hit;
            Some(s2)
        },
        None => None,
    };
    let new_aliens = flagged_aliens(
        &game.aliens,
        &game.ship,
        &game.bullets,
        &game.asteroids,
        Ghost(g0),
    );
    let new_bullets = flagged_bullets(
        &game.bullets,
        &game.ship,
        &game.aliens,
        &game.asteroids,
        Ghost(g0),
    );
    let new_asteroids = flagged_asteroids(
        &game.asteroids,
        &game.ship,
        &game.aliens,
        &game.bullets,
        Ghost(g0),
    );
    game.ship = new_ship;
    game.aliens = new_aliens;
    game.bullets = new_bullets;
    game.asteroids = new_asteroids;
}

} // verus!
