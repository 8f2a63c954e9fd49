//! Movement stage: steering (turning and thrust by parallelogram-law vector
//! composition), exponential drag on the ship, and the advance of every
//! entity's position by its velocity with toroidal wraparound. Aliens wrap
//! only vertically; everything else wraps on both axes. The whole stage is
//! skipped while paused, and steering additionally requires the level to be
//! running.

use crate::cfg::{Config, ARENA_CAP, MAX_FRAME_MILLIS, MAX_STEP, SPEED_CAP};
use crate::entity::{Action, ActionSet, Alien, Asteroid, Body, Bullet, Explosion, GameState, Ship, Vec2};
use crate::game::Game;
use crate::trig::{
    acos_milli, cos_milli, cos_parts, isqrt64, lemma_cos_zero, lemma_isqrt_unique, sin_milli,
    sin_parts, spec_acos, spec_isqrt, sval,
};
use vstd::arithmetic::div_mod::{
    lemma_div_by_multiple, lemma_div_is_ordered, lemma_div_pos_is_pos,
    lemma_fundamental_div_mod, lemma_fundamental_div_mod_converse, lemma_mod_sub_multiples_vanish,
    lemma_small_mod,
};
use vstd::prelude::*;

verus! {

/// Distance advanced along one axis in one frame: the trig magnitude (in
/// thousandths) times the speed (milli-units per second) times the frame
/// (milliseconds), scaled back down.
pub open spec fn step_len(mag: int, speed: int, dt: int) -> int {
    (mag * speed * dt) / 1_000_000
}

/// Signed coordinate change for a signed trig value `t`.
pub open spec fn coord_delta(t: int, speed: int, dt: int) -> int {
    if t >= 0 {
        step_len(t, speed, dt)
    } else {
        -step_len(-t, speed, dt)
    }
}

/// One coordinate after a frame of motion, wrapped into `[0, extent)` when
/// `wrap` holds.
pub open spec fn moved_coord(p: int, t: int, speed: int, dt: int, wrap: bool, extent: int) -> int {
    let q = p + coord_delta(t, speed, dt);
    if wrap {
        q % extent
    } else {
        q
    }
}

/// A position after a frame of motion along `body`'s heading and speed.
pub open spec fn moved_position(
    pos: Vec2,
    body: Body,
    dt: int,
    wrap_x: bool,
    wrap_y: bool,
    cfg: &Config,
) -> Vec2 {
    Vec2 {
        x: moved_coord(
            pos.x as int,
            cos_milli(body.angle as int),
            body.speed as int,
            dt,
            wrap_x,
            cfg.arena_width as int,
        ) as i64,
        y: moved_coord(
            pos.y as int,
            sin_milli(body.angle as int),
            body.speed as int,
            dt,
            wrap_y,
            cfg.arena_height as int,
        ) as i64,
    }
}

/// A signed trig value's coordinate change is the unsigned step, with the
/// sign applied.
pub proof fn lemma_coord_delta_parts(neg: bool, mag: int, speed: int, dt: int)
    requires
        0 <= mag,
        0 <= speed,
        0 <= dt,
    ensures
        coord_delta(sval(neg, mag), speed, dt) == if neg {
            -step_len(mag, speed, dt)
        } else {
            step_len(mag, speed, dt)
        },
{
    if neg && mag == 0 {
        assert(0 * speed * dt == 0) by (nonlinear_arith);
    }
}

/// The wraparound law: a wrapped axis of a moved position lands inside the
/// arena, whatever finite position, heading and speed the entity had.
pub proof fn lemma_wraparound(pos: Vec2, body: Body, dt: int, cfg: &Config)
    requires
        cfg.wf(),
    ensures
        0 <= moved_position(pos, body, dt, true, true, cfg).x < cfg.arena_width,
        0 <= moved_position(pos, body, dt, true, true, cfg).y < cfg.arena_height,
        moved_position(pos, body, dt, false, true, cfg).y == moved_position(
            pos,
            body,
            dt,
            true,
            true,
            cfg,
        ).y,
{
    let qx = pos.x + coord_delta(cos_milli(body.angle as int), body.speed as int, dt);
    let qy = pos.y + coord_delta(sin_milli(body.angle as int), body.speed as int, dt);
    vstd::arithmetic::div_mod::lemma_mod_bound(qx, cfg.arena_width as int);
    vstd::arithmetic::div_mod::lemma_mod_bound(qy, cfg.arena_height as int);
}

/// One frame's travel along an axis never exceeds `MAX_STEP`.
pub proof fn lemma_step_bound(mag: int, speed: int, dt: int)
    requires
        0 <= mag <= 1000,
        0 <= speed <= SPEED_CAP,
        0 <= dt <= MAX_FRAME_MILLIS,
    ensures
        0 <= step_len(mag, speed, dt) <= MAX_STEP,
{
    assert(0 <= mag * speed * dt <= 2_000_000_000_000) by (nonlinear_arith)
        requires
            0 <= mag <= 1000,
            0 <= speed <= 2_000_000,
            0 <= dt <= 1000,
    ;
    lemma_div_pos_is_pos(mag * speed * dt, 1_000_000);
    lemma_div_is_ordered(mag * speed * dt, 2_000_000_000_000, 1_000_000);
    lemma_div_by_multiple(2_000_000, 1_000_000);
}

/// Wraps a coordinate into `[0, extent)`: the mathematical (Euclidean)
/// remainder, which the toroidal arena's wraparound is.
pub fn wrap_coord(p: i64, extent: u64) -> (r: i64)
    requires
        0 < extent <= ARENA_CAP,
        -1_000_000_000_000 <= p <= 1_000_000_000_000,
    ensures
        0 <= r < extent,
        r == p as int % extent as int,
{
    let ghost e = extent as int;
    if p >= 0 {
        ((p as u64) % extent) as i64
    } else {
        let np: u64 = (-p) as u64;
        let m: u64 = np % extent;
        proof {
            let q = np as int / e;
            lemma_fundamental_div_mod(np as int, e);
            assert(np as int == e * q + (m as int));
            assert(p as int == -(np as int));
            if m == 0 {
                assert(p as int == (-q) * e + 0) by (nonlinear_arith)
                    requires
                        np as int == e * q + (m as int),
                        p as int == -(np as int),
                        m == 0,
                ;
                lemma_fundamental_div_mod_converse(p as int, e, -q, 0);
            } else {
                assert(p as int == (-q - 1) * e + (e - m as int)) by (nonlinear_arith)
                    requires
                        np as int == e * q + (m as int),
                        p as int == -(np as int),
                ;
                lemma_fundamental_div_mod_converse(p as int, e, -q - 1, e - m as int);
            }
        }
        if m == 0 {
            0
        } else {
            (extent - m) as i64
        }
    }
}

/// Advances `position` one frame along `body`'s heading at `body`'s speed,
/// wrapping each axis into the arena when asked to.
pub fn move_position(
    position: &mut Vec2,
    body: &Body,
    cfg: &Config,
    dt: u32,
    wrap_x: bool,
    wrap_y: bool,
)
    requires
        cfg.wf(),
        body.wf(),
        dt <= MAX_FRAME_MILLIS,
        -1_000_000_000 <= old(position).x <= 1_000_000_000,
        -1_000_000_000 <= old(position).y <= 1_000_000_000,
    ensures
        *final(position) == moved_position(*old(position), *body, dt as int, wrap_x, wrap_y, cfg),
        wrap_x ==> 0 <= final(position).x < cfg.arena_width,
        wrap_y ==> 0 <= final(position).y < cfg.arena_height,
        !wrap_x ==> old(position).x - MAX_STEP <= final(position).x <= old(position).x + MAX_STEP,
        !wrap_y ==> old(position).y - MAX_STEP <= final(position).y <= old(position).y + MAX_STEP,
{
    let (cn, cm) = cos_parts(body.angle);
    let (sn, sm) = sin_parts(body.angle);
    proof {
        lemma_step_bound(cm as int, body.speed as int, dt as int);
        lemma_step_bound(sm as int, body.speed as int, dt as int);
        assert(cm * body.speed <= 2_000_000_000 && cm * body.speed * dt <= 2_000_000_000_000)
            by (nonlinear_arith)
            requires
                0 <= cm <= 1000,
                0 <= body.speed <= 2_000_000,
                0 <= dt <= 1000,
        ;
        assert(sm * body.speed <= 2_000_000_000 && sm * body.speed * dt <= 2_000_000_000_000)
            by (nonlinear_arith)
            requires
                0 <= sm <= 1000,
                0 <= body.speed <= 2_000_000,
                0 <= dt <= 1000,
        ;
    }
    let step_x: u64 = cm * body.speed * (dt as u64) / 1_000_000;
    let step_y: u64 = sm * body.speed * (dt as u64) / 1_000_000;
    let nx: i64 = if cn {
        position.x - (step_x as i64)
    } else {
        position.x + (step_x as i64)
    };
    let ny: i64 = if sn {
        position.y - (step_y as i64)
    } else {
        position.y + (step_y as i64)
    };
    proof {
        assert(step_x as int == step_len(cm as int, body.speed as int, dt as int));
        assert(step_y as int == step_len(sm as int, body.speed as int, dt as int));
        lemma_coord_delta_parts(cn, cm as int, body.speed as int, dt as int);
        lemma_coord_delta_parts(sn, sm as int, body.speed as int, dt as int);
        assert(nx == old(position).x + coord_delta(
            sval(cn, cm as int),
            body.speed as int,
            dt as int,
        ));
        assert(ny == old(position).y + coord_delta(
            sval(sn, sm as int),
            body.speed as int,
            dt as int,
        ));
    }
    position.x = if wrap_x {
        wrap_coord(nx, cfg.arena_width)
    } else {
        nx
    };
    position.y = if wrap_y {
        wrap_coord(ny, cfg.arena_height)
    } else {
        ny
    };
}

/// A signed displacement of `dist` milli-units scaled by the signed trig
/// value `t` in thousandths, rounded toward zero.
pub open spec fn offset_delta(t: int, dist: int) -> int {
    if t >= 0 {
        (t * dist) / 1000
    } else {
        -(((-t) * dist) / 1000)
    }
}

/// A position displaced by `dist` milli-units along heading `angle`,
/// wrapped into the arena.
pub open spec fn offset_pos(p: Vec2, angle: int, dist: int, cfg: &Config) -> Vec2 {
    Vec2 {
        x: ((p.x + offset_delta(cos_milli(angle), dist)) % (cfg.arena_width as int)) as i64,
        y: ((p.y + offset_delta(sin_milli(angle), dist)) % (cfg.arena_height as int)) as i64,
    }
}

/// Displaces `p` by `dist` milli-units along `angle`, wrapped into the
/// arena; where a muzzle offset lands a spawned bullet.
pub fn offset_position(p: Vec2, angle: u32, dist: u64, cfg: &Config) -> (r: Vec2)
    requires
        cfg.wf(),
        angle < 360,
        dist <= 1_000_000,
        -1_000_000_000 <= p.x <= 1_000_000_000,
        -1_000_000_000 <= p.y <= 1_000_000_000,
    ensures
        r == offset_pos(p, angle as int, dist as int, cfg),
        r.in_arena(cfg),
{
    let (cn, cm) = cos_parts(angle);
    let (sn, sm) = sin_parts(angle);
    proof {
        assert(cm * dist <= 1_000_000_000 && sm * dist <= 1_000_000_000) by (nonlinear_arith)
            requires
                0 <= cm <= 1000,
                0 <= sm <= 1000,
                0 <= dist <= 1_000_000,
        ;
        lemma_div_pos_is_pos(cm * dist, 1000);
        lemma_div_pos_is_pos(sm * dist, 1000);
        lemma_div_is_ordered(cm * dist, 1_000_000_000, 1000);
        lemma_div_is_ordered(sm * dist, 1_000_000_000, 1000);
        lemma_div_by_multiple(1_000_000, 1000);
        if cn && cm == 0 {
            assert(0 * dist == 0) by (nonlinear_arith);
        }
        if sn && sm == 0 {
            assert(0 * dist == 0) by (nonlinear_arith);
        }
    }
    let ox: u64 = cm * dist / 1000;
    let oy: u64 = sm * dist / 1000;
    let nx: i64 = if cn {
        p.x - (ox as i64)
    } else {
        p.x + (ox as i64)
    };
    let ny: i64 = if sn {
        p.y - (oy as i64)
    } else {
        p.y + (oy as i64)
    };
    proof {
        assert(nx == p.x + offset_delta(sval(cn, cm as int), dist as int));
        assert(ny == p.y + offset_delta(sval(sn, sm as int), dist as int));
    }
    Vec2 { x: wrap_coord(nx, cfg.arena_width), y: wrap_coord(ny, cfg.arena_height) }
}

/// Turns heading `a` forward by `d` degrees, normalized into `[0, 360)`.
pub fn add_angle(a: u32, d: u32) -> (r: u32)
    requires
        a < 360,
        d <= 1_000_000,
    ensures
        r < 360,
        r as int == (a + d) % 360,
{
    (a + d) % 360
}

/// Turns heading `a` backward by `d` degrees, normalized into `[0, 360)`.
pub fn sub_angle(a: u32, d: u32) -> (r: u32)
    requires
        a < 360,
        d <= 1_000_000,
    ensures
        r < 360,
        r as int == (a - d) % 360,
{
    let m: u32 = d % 360;
    proof {
        vstd::arithmetic::div_mod::lemma_sub_mod_noop_right(a as int, d as int, 360);
        if m <= a {
            lemma_small_mod((a - m) as nat, 360nat);
        } else {
            lemma_fundamental_div_mod_converse(a as int - m, 360, -1, a as int + 360 - m);
        }
    }
    if m <= a {
        a - m
    } else {
        a + 360 - m
    }
}

/// Rust's truncating remainder by 180 (remainder carries the sign of the
/// dividend), used to fold a rotation into its shortest signed form.
pub open spec fn trunc_mod180(d: int) -> int {
    if d >= 0 {
        d % 180
    } else {
        -((-d) % 180)
    }
}

/// The shortest signed rotation from heading `a1` to heading `a2`, in
/// `[-180, 180]` degrees.
pub open spec fn short_angle(a1: int, a2: int) -> int {
    let d = a2 - a1;
    2 * trunc_mod180(d) - d
}

/// Squared magnitude of two composed vectors by the parallelogram law:
/// `v1^2 + v2^2 + 2 v1 v2 cos(angle between)`, with the cosine `c` in
/// thousandths and the cross term rounded toward zero.
pub open spec fn combined_mag_sq(v1: int, v2: int, c: int) -> int {
    if c >= 0 {
        v1 * v1 + v2 * v2 + (2 * (v1 * v2) * c) / 1000
    } else {
        v1 * v1 + v2 * v2 - (2 * (v1 * v2) * (-c)) / 1000
    }
}

/// Composition of the polar vectors `(v1, a1)` and `(v2, a2)`: the
/// resulting magnitude by the parallelogram law, and the resulting heading
/// by the law of cosines solved for the rotation away from `a1`, its sign
/// that of the shortest rotation from `a1` to `a2`. A degenerate triangle
/// (zero denominator or an out-of-domain arccosine ratio) leaves the
/// heading at `a1`.
pub open spec fn spec_sum_vectors(v1: int, a1: int, v2: int, a2: int) -> (int, int) {
    let d_ang = short_angle(a1, a2);
    let c = if d_ang >= 0 {
        cos_milli(d_ang)
    } else {
        cos_milli(-d_ang)
    };
    let m2 = combined_mag_sq(v1, v2, c);
    let mag = spec_isqrt(m2);
    let num = v1 * v1 + mag * mag - v2 * v2;
    let den = 2 * (v1 * mag);
    let delta = if den == 0 {
        0
    } else {
        let q = if num >= 0 {
            (num * 1000) / den
        } else {
            -(((-num) * 1000) / den)
        };
        if q > 1000 || q < -1000 {
            0
        } else {
            spec_acos(q)
        }
    };
    let sdelta = if d_ang > 0 {
        delta
    } else if d_ang < 0 {
        -delta
    } else {
        0
    };
    (mag, (a1 + sdelta) % 360)
}

/// Composes the velocity `(v1_magnitude, v1_angle)` with the impulse
/// `(v2_magnitude, v2_angle)` by the parallelogram law. Adding an impulse
/// along the current heading is exact scalar addition with the heading
/// kept; adding to a vector of zero magnitude keeps `v1_angle` (the
/// degenerate-triangle policy); and the result never exceeds the sum of
/// the magnitudes.
pub fn sum_vectors(v1_magnitude: u64, v1_angle: u32, v2_magnitude: u64, v2_angle: u32) -> (r: (
    u64,
    u32,
))
    requires
        v1_magnitude <= SPEED_CAP,
        v2_magnitude <= SPEED_CAP,
        v1_angle < 360,
        v2_angle < 360,
    ensures
        (r.0 as int, r.1 as int) == spec_sum_vectors(
            v1_magnitude as int,
            v1_angle as int,
            v2_magnitude as int,
            v2_angle as int,
        ),
        r.0 <= v1_magnitude + v2_magnitude,
        r.1 < 360,
        v1_magnitude == 0 ==> r.0 == v2_magnitude && r.1 == v1_angle,
        v1_angle == v2_angle ==> r.0 == v1_magnitude + v2_magnitude && r.1 == v1_angle,
{
    let v1 = v1_magnitude;
    let v2 = v2_magnitude;
    let ghost d = v2_angle as int - v1_angle as int;
    // Shortest signed rotation from v1_angle to v2_angle.
    let (dneg, dmag): (bool, u32) = if v2_angle >= v1_angle {
        (false, v2_angle - v1_angle)
    } else {
        (true, v1_angle - v2_angle)
    };
    let tm: u32 = dmag % 180;
    let t_i: i64 = if dneg {
        -(tm as i64)
    } else {
        tm as i64
    };
    let d_i: i64 = if dneg {
        -(dmag as i64)
    } else {
        dmag as i64
    };
    let dang: i64 = 2 * t_i - d_i;
    proof {
        assert(t_i == trunc_mod180(d));
        assert(dang == short_angle(v1_angle as int, v2_angle as int));
        if dmag < 180 {
            lemma_small_mod(dmag as nat, 180nat);
        } else {
            lemma_mod_sub_multiples_vanish(dmag as int, 180);
            lemma_small_mod((dmag - 180) as nat, 180nat);
        }
        assert(-180 <= dang <= 180);
    }
    let dabs: u32 = if dang >= 0 {
        dang as u32
    } else {
        (-dang) as u32
    };
    let (cnn, cmm) = cos_parts(dabs);
    let ghost c = if dang >= 0 {
        cos_milli(dang as int)
    } else {
        cos_milli(-dang as int)
    };
    proof {
        assert(c == sval(cnn, cmm as int));
    }
    // Squared magnitude of the composed vector.
    proof {
        assert(v1 * v1 <= 4_000_000_000_000 && v2 * v2 <= 4_000_000_000_000 && v1 * v2
            <= 4_000_000_000_000) by (nonlinear_arith)
            requires
                0 <= v1 <= 2_000_000,
                0 <= v2 <= 2_000_000,
        ;
    }
    let v11: u64 = v1 * v1;
    let v22: u64 = v2 * v2;
    let cross: u64 = 2 * (v1 * v2);
    proof {
        assert(cross * cmm <= 8_000_000_000_000 * 1000) by (nonlinear_arith)
            requires
                0 <= cross <= 8_000_000_000_000,
                0 <= cmm <= 1000,
        ;
    }
    let sub: u64 = cross * cmm / 1000;
    proof {
        assert(cross * cmm <= cross * 1000) by (nonlinear_arith)
            requires
                0 <= cross,
                cmm <= 1000,
        ;
        lemma_div_is_ordered(cross * cmm as int, cross * 1000, 1000);
        lemma_div_by_multiple(cross as int, 1000);
        assert(sub <= cross);
        assert(cross <= v11 + v22) by (nonlinear_arith)
            requires
                cross == 2 * (v1 * v2),
                v11 == v1 * v1,
                v22 == v2 * v2,
        ;
        lemma_div_pos_is_pos(cross * cmm as int, 1000);
    }
    let m2: u64 = if cnn {
        v11 + v22 - sub
    } else {
        v11 + v22 + sub
    };
    proof {
        if cnn {
            if cmm == 0 {
                assert(c == 0);
                assert(2 * ((v1 as int) * (v2 as int)) * 0 == 0) by (nonlinear_arith);
                assert(cross * (cmm as int) == 0) by (nonlinear_arith)
                    requires
                        cmm == 0,
                ;
                assert(combined_mag_sq(v1 as int, v2 as int, c) == m2);
            } else {
                assert(c == -(cmm as int) && c < 0);
                assert(combined_mag_sq(v1 as int, v2 as int, c) == v1 * v1 + v2 * v2 - (2 * ((
                v1 as int) * (v2 as int)) * (cmm as int)) / 1000);
                assert(combined_mag_sq(v1 as int, v2 as int, c) == m2);
            }
        } else {
            assert(c == cmm as int);
            assert(combined_mag_sq(v1 as int, v2 as int, c) == m2);
        }
        assert(combined_mag_sq(v1 as int, v2 as int, c) == m2);
        assert((v1 + v2) * (v1 + v2) == v11 + v22 + cross) by (nonlinear_arith)
            requires
                v11 == v1 * v1,
                v22 == v2 * v2,
                cross == 2 * (v1 * v2),
        ;
        assert(m2 <= (v1 + v2) * (v1 + v2));
    }
    let mag: u64 = isqrt64(m2);
    proof {
        if mag > v1 + v2 {
            assert((v1 + v2 + 1) * (v1 + v2 + 1) <= mag * mag) by (nonlinear_arith)
                requires
                    v1 + v2 + 1 <= mag,
                    0 <= v1 + v2,
            ;
            assert((v1 + v2) * (v1 + v2) < (v1 + v2 + 1) * (v1 + v2 + 1)) by (nonlinear_arith)
                requires
                    0 <= v1 + v2,
            ;
            assert(false);
        }
        assert(mag <= v1 + v2);
        assert(mag * mag <= m2);
    }
    // Rotation away from v1_angle, by the law of cosines.
    let magsq: u64 = mag * mag;
    proof {
        assert(v1 * mag <= 8_000_000_000_000) by (nonlinear_arith)
            requires
                0 <= v1 <= 2_000_000,
                0 <= mag <= 4_000_000,
        ;
    }
    let den: u64 = 2 * (v1 * mag);
    let delta: u32 = if den == 0 {
        0
    } else {
        let lhs: u64 = v11 + magsq;
        if lhs >= v22 {
            let num: u64 = lhs - v22;
            let q: u64 = num * 1000 / den;
            if q > 1000 {
                0
            } else {
                acos_milli(false, q)
            }
        } else {
            let num: u64 = v22 - lhs;
            let q: u64 = num * 1000 / den;
            if q > 1000 {
                0
            } else {
                acos_milli(true, q)
            }
        }
    };
    proof {
        assert(delta <= 180);
    }
    // Resulting heading: the rotation applied in the direction of the
    // shortest rotation, normalized into [0, 360).
    let ang: u32 = if dang > 0 {
        (v1_angle + delta) % 360
    } else if dang < 0 {
        if delta <= v1_angle {
            v1_angle - delta
        } else {
            v1_angle + 360 - delta
        }
    } else {
        v1_angle
    };
    proof {
        let a1 = v1_angle as int;
        if dang > 0 {
            assert(ang == (a1 + delta) % 360);
        } else if dang < 0 {
            if delta <= v1_angle {
                lemma_small_mod((a1 - delta) as nat, 360nat);
            } else {
                lemma_fundamental_div_mod_converse(a1 - delta, 360, -1, a1 + 360 - delta);
            }
        } else {
            lemma_small_mod(a1 as nat, 360nat);
        }
        // The documented special cases.
        if v1 == 0 {
            assert(0 * (v2 as int) == 0) by (nonlinear_arith);
            assert(0 * (mag as int) == 0) by (nonlinear_arith);
            assert(m2 == v22);
            assert((v2 + 1) * (v2 + 1) > v22) by (nonlinear_arith)
                requires
                    v22 == v2 * v2,
                    0 <= v2,
            ;
            lemma_isqrt_unique(v22 as int, v2 as int);
            assert(mag == v2);
            assert(den == 0);
            lemma_small_mod(a1 as nat, 360nat);
        }
        if v1_angle == v2_angle {
            assert(dang == 0);
            lemma_cos_zero();
            assert(c == 1000);
            lemma_div_by_multiple(cross as int, 1000);
            assert(sub == cross);
            assert(m2 == (v1 + v2) * (v1 + v2));
            assert(((v1 + v2) + 1) * ((v1 + v2) + 1) > m2) by (nonlinear_arith)
                requires
                    m2 == (v1 + v2) * (v1 + v2),
                    0 <= v1 + v2,
            ;
            lemma_isqrt_unique(m2 as int, v1 as int + v2 as int);
            assert(mag == v1 + v2);
            lemma_small_mod(a1 as nat, 360nat);
        }
    }
    (mag, ang)
}

/// Degrees the ship turns in one frame.
pub open spec fn turn_delta(cfg: &Config, dt: int) -> int {
    (cfg.ship_turn_speed * dt) / 1000
}

/// Thrust impulse gained in one frame of acceleration, milli-units/s.
pub open spec fn thrust_impulse(cfg: &Config, dt: int) -> int {
    (cfg.ship_accel * dt) / 1000
}

/// The facing after one frame of turning: right first, then left, each
/// normalized; holding both turns back to the start.
pub open spec fn turned_facing(facing: int, actions: ActionSet, cfg: &Config, dt: int) -> int {
    let td = turn_delta(cfg, dt);
    let f1 = if actions.spec_contains(Action::TurnRight) {
        (facing + td) % 360
    } else {
        facing
    };
    if actions.spec_contains(Action::TurnLeft) {
        (f1 - td) % 360
    } else {
        f1
    }
}

/// A speed after one frame of exponential drag.
pub open spec fn dragged_speed(speed: int, cfg: &Config, dt: int) -> int {
    speed - (speed * cfg.ship_decel_milli * dt) / 1_000_000
}

/// The ship after one frame of steering, drag and motion: while the level
/// runs, turning rotates the facing and thrust (only up to the speed limit)
/// composes an impulse along the facing into the velocity by the
/// parallelogram law, lighting the exhaust; in every unpaused state the
/// speed then decays and the position advances, wrapped on both axes.
pub open spec fn moved_ship(s: Ship, actions: ActionSet, running: bool, cfg: &Config, dt: int)
    -> Ship {
    let facing = if running {
        turned_facing(s.facing_angle as int, actions, cfg, dt)
    } else {
        s.facing_angle as int
    };
    let accel = running && actions.spec_contains(Action::Accelerate) && s.body.speed
        <= cfg.ship_max_speed;
    let thrusted = if accel {
        spec_sum_vectors(s.body.speed as int, s.body.angle as int, thrust_impulse(cfg, dt), facing)
    } else {
        (s.body.speed as int, s.body.angle as int)
    };
    let exhaust = if running {
        accel
    } else {
        s.has_exhaust
    };
    let body = Body {
        angle: thrusted.1 as u32,
        speed: dragged_speed(thrusted.0, cfg, dt) as u64,
        ..s.body
    };
    Ship {
        position: moved_position(s.position, body, dt, true, true, cfg),
        facing_angle: facing as u32,
        body,
        has_exhaust: exhaust,
        ..s
    }
}

/// Composing an impulse along the current heading is exact scalar addition:
/// the heading does not move.
pub proof fn lemma_sum_vectors_collinear(v1: int, a: int, v2: int)
    requires
        0 <= v1,
        0 <= v2,
        0 <= a < 360,
    ensures
        spec_sum_vectors(v1, a, v2, a) == (v1 + v2, a),
{
    lemma_cos_zero();
    lemma_div_by_multiple(2 * (v1 * v2), 1000);
    let m2 = combined_mag_sq(v1, v2, 1000);
    assert(m2 == (v1 + v2) * (v1 + v2)) by (nonlinear_arith)
        requires
            m2 == v1 * v1 + v2 * v2 + 2 * (v1 * v2),
    ;
    assert((v1 + v2 + 1) * (v1 + v2 + 1) > m2) by (nonlinear_arith)
        requires
            m2 == (v1 + v2) * (v1 + v2),
            0 <= v1 + v2,
    ;
    lemma_isqrt_unique(m2, v1 + v2);
    lemma_small_mod(a as nat, 360nat);
}

/// A frame of drag never reverses the speed and never increases it.
pub proof fn lemma_dragged_bounds(speed: int, cfg: &Config, dt: int)
    requires
        cfg.wf(),
        0 <= speed <= SPEED_CAP,
        0 <= dt <= MAX_FRAME_MILLIS,
    ensures
        0 <= dragged_speed(speed, cfg, dt) <= speed,
{
    assert(0 <= speed * cfg.ship_decel_milli * dt <= speed * 1_000_000) by (nonlinear_arith)
        requires
            0 <= speed <= 2_000_000,
            0 <= cfg.ship_decel_milli <= 1000,
            0 <= dt <= 1000,
    ;
    lemma_div_is_ordered(speed * cfg.ship_decel_milli * dt, speed * 1_000_000, 1_000_000);
    lemma_div_by_multiple(speed, 1_000_000);
    lemma_div_pos_is_pos(speed * cfg.ship_decel_milli * dt, 1_000_000);
}

/// One frame's thrust impulse never exceeds the configured acceleration.
pub proof fn lemma_thrust_impulse_bound(cfg: &Config, dt: int)
    requires
        cfg.wf(),
        0 <= dt <= MAX_FRAME_MILLIS,
    ensures
        0 <= thrust_impulse(cfg, dt) <= cfg.ship_accel,
{
    assert(0 <= cfg.ship_accel * dt <= cfg.ship_accel * 1000) by (nonlinear_arith)
        requires
            0 <= cfg.ship_accel,
            0 <= dt <= 1000,
    ;
    lemma_div_is_ordered(cfg.ship_accel * dt, cfg.ship_accel * 1000, 1000);
    lemma_div_by_multiple(cfg.ship_accel as int, 1000);
    lemma_div_pos_is_pos(cfg.ship_accel * dt, 1000);
}

/// The ship after a whole sequence of frames of motion, each with the same
/// action set, while the level runs.
pub open spec fn throttled_ship(s: Ship, actions: ActionSet, cfg: &Config, dts: Seq<u32>) -> Ship
    decreases dts.len(),
{
    if dts.len() == 0 {
        s
    } else {
        throttled_ship(moved_ship(s, actions, true, cfg, dts[0] as int), actions, cfg, dts.skip(1))
    }
}

/// The held-thrust law: with acceleration held and no turning, over any
/// sequence of frames of any durations, a ship whose velocity already
/// points where it faces never rotates — facing and heading stay exactly
/// fixed, because collinear composition adds no rotation — and its speed
/// stays at or just under the speed limit: never above the limit plus a
/// single frame's impulse (thrust applies only at or below the limit, and
/// drag only lowers the speed).
pub proof fn lemma_held_thrust(s: Ship, actions: ActionSet, cfg: &Config, dts: Seq<u32>)
    requires
        cfg.wf(),
        s.body.wf(),
        s.facing_angle < 360,
        s.body.angle == s.facing_angle,
        s.body.speed <= cfg.ship_max_speed + cfg.ship_accel,
        actions.spec_contains(Action::Accelerate),
        !actions.spec_contains(Action::TurnLeft),
        !actions.spec_contains(Action::TurnRight),
        forall|i: int| 0 <= i < dts.len() ==> (#[trigger] dts[i]) <= MAX_FRAME_MILLIS,
    ensures
        throttled_ship(s, actions, cfg, dts).facing_angle == s.facing_angle,
        throttled_ship(s, actions, cfg, dts).body.angle == s.body.angle,
        throttled_ship(s, actions, cfg, dts).body.speed <= cfg.ship_max_speed + cfg.ship_accel,
    decreases dts.len(),
{
    if dts.len() > 0 {
        let dt = dts[0] as int;
        let s1 = moved_ship(s, actions, true, cfg, dt);
        let thrusted = if s.body.speed <= cfg.ship_max_speed {
            spec_sum_vectors(
                s.body.speed as int,
                s.body.angle as int,
                thrust_impulse(cfg, dt),
                s.facing_angle as int,
            )
        } else {
            (s.body.speed as int, s.body.angle as int)
        };
        lemma_thrust_impulse_bound(cfg, dt);
        if s.body.speed <= cfg.ship_max_speed {
            lemma_sum_vectors_collinear(
                s.body.speed as int,
                s.body.angle as int,
                thrust_impulse(cfg, dt),
            );
        }
        assert(thrusted.1 == s.body.angle);
        assert(0 <= thrusted.0 <= cfg.ship_max_speed + cfg.ship_accel);
        lemma_dragged_bounds(thrusted.0, cfg, dt);
        assert(s1.facing_angle == s.facing_angle);
        assert(s1.body.angle == s.body.angle);
        assert(s1.body.speed == dragged_speed(thrusted.0, cfg, dt));
        assert(s1.body.wf());
        lemma_held_thrust(s1, actions, cfg, dts.skip(1));
    }
}

/// One frame of drag on the ship's speed.
fn drag_speed(speed: u64, cfg: &Config, dt: u32) -> (r: u64)
    requires
        cfg.wf(),
        speed <= SPEED_CAP,
        dt <= MAX_FRAME_MILLIS,
    ensures
        r == dragged_speed(speed as int, cfg, dt as int),
        r <= speed,
{
    proof {
        assert(speed * cfg.ship_decel_milli <= 2_000_000_000 && speed * cfg.ship_decel_milli * dt
            <= speed * 1_000_000) by (nonlinear_arith)
            requires
                0 <= speed <= 2_000_000,
                0 <= cfg.ship_decel_milli <= 1000,
                0 <= dt <= 1000,
        ;
        lemma_div_is_ordered(
            speed * cfg.ship_decel_milli * dt,
            speed * 1_000_000,
            1_000_000,
        );
        lemma_div_by_multiple(speed as int, 1_000_000);
        lemma_div_pos_is_pos(speed * cfg.ship_decel_milli * dt, 1_000_000);
    }
    let dec: u64 = speed * cfg.ship_decel_milli * (dt as u64) / 1_000_000;
    speed - dec
}

/// One frame of steering, drag and motion for the ship.
fn move_ship(s: &mut Ship, actions: &ActionSet, running: bool, cfg: &Config, dt: u32)
    requires
        cfg.wf(),
        old(s).wf(cfg),
        dt <= MAX_FRAME_MILLIS,
    ensures
        *final(s) == moved_ship(*old(s), *actions, running, cfg, dt as int),
        final(s).wf(cfg),
{
    if running {
        proof {
            assert(cfg.ship_turn_speed * dt <= 100_000_000) by (nonlinear_arith)
                requires
                    0 <= cfg.ship_turn_speed <= 100_000,
                    0 <= dt <= 1000,
            ;
            lemma_div_pos_is_pos(cfg.ship_turn_speed * dt, 1000);
            lemma_div_is_ordered(cfg.ship_turn_speed * dt, 100_000_000, 1000);
            lemma_div_by_multiple(100_000, 1000);
        }
        let td: u32 = cfg.ship_turn_speed * dt / 1000;
        if actions.contains(Action::TurnRight) {
            s.facing_angle = add_angle(s.facing_angle, td);
        }
        if actions.contains(Action::TurnLeft) {
            s.facing_angle = sub_angle(s.facing_angle, td);
        }
        if actions.contains(Action::Accelerate) && s.body.speed <= cfg.ship_max_speed {
            s.has_exhaust = true;
            proof {
                assert(cfg.ship_accel * dt <= cfg.ship_accel * 1000 && cfg.ship_accel * 1000
                    <= 2_000_000_000_000) by (nonlinear_arith)
                    requires
                        0 <= cfg.ship_accel <= 2_000_000,
                        0 <= dt <= 1000,
                ;
                lemma_div_is_ordered(cfg.ship_accel * dt, cfg.ship_accel * 1000, 1000);
                lemma_div_by_multiple(cfg.ship_accel as int, 1000);
                lemma_div_pos_is_pos(cfg.ship_accel * dt, 1000);
            }
            let thrust: u64 = cfg.ship_accel * (dt as u64) / 1000;
            let (speed, angle) = sum_vectors(
                s.body.speed,
                s.body.angle,
                thrust,
                s.facing_angle,
            );
            s.body.speed = speed;
            s.body.angle = angle;
        } else {
            s.has_exhaust = false;
        }
    }
    s.body.speed = drag_speed(s.body.speed, cfg, dt);
    let body = s.body;
    move_position(&mut s.position, &body, cfg, dt, true, true);
}

/// One frame of motion for every alien: vertical wraparound only; the far
/// horizontal edge is an exit, not a seam.
fn move_aliens(aliens: &mut Vec<Alien>, cfg: &Config, dt: u32)
    requires
        cfg.wf(),
        dt <= MAX_FRAME_MILLIS,
        forall|i: int| 0 <= i < old(aliens)@.len() ==> (#[trigger] old(aliens)@[i]).wf(cfg),
        forall|i: int| 0 <= i < old(aliens)@.len() ==> -6_000_000
            <= (#[trigger] old(aliens)@[i]).position.x <= cfg.arena_width + 6_000_000,
    ensures
        final(aliens)@.len() == old(aliens)@.len(),
        forall|i: int| 0 <= i < old(aliens)@.len() ==> final(aliens)@[i] == (Alien {
            position: moved_position(
                old(aliens)@[i].position,
                old(aliens)@[i].body,
                dt as int,
                false,
                true,
                cfg,
            ),
            ..old(aliens)@[i]
        }),
        forall|i: int| 0 <= i < old(aliens)@.len() ==> (#[trigger] final(aliens)@[i]).wf(cfg)
            && old(aliens)@[i].position.x - MAX_STEP <= final(aliens)@[i].position.x <= old(
            aliens,
        )@[i].position.x + MAX_STEP,
{
    let n = aliens.len();
    let mut i: usize = 0;
    while i < n
        invariant
            i <= n,
            cfg.wf(),
            dt <= MAX_FRAME_MILLIS,
            aliens@.len() == n == old(aliens)@.len(),
            forall|j: int| 0 <= j < n ==> (#[trigger] old(aliens)@[j]).wf(cfg),
            forall|j: int| 0 <= j < n ==> -6_000_000 <= (#[trigger] old(aliens)@[j]).position.x
                <= cfg.arena_width + 6_000_000,
            forall|j: int| i <= j < n ==> aliens@[j] == old(aliens)@[j],
            forall|j: int| 0 <= j < i ==> aliens@[j] == (Alien {
                position: moved_position(
                    old(aliens)@[j].position,
                    old(aliens)@[j].body,
                    dt as int,
                    false,
                    true,
                    cfg,
                ),
                ..old(aliens)@[j]
            }),
            forall|j: int| 0 <= j < i ==> (#[trigger] aliens@[j]).wf(cfg) && old(
                aliens,
            )@[j].position.x - MAX_STEP <= aliens@[j].position.x <= old(aliens)@[j].position.x
                + MAX_STEP,
        decreases n - i,
    {
        let mut a = aliens[i];
        let body = a.body;
        move_position(&mut a.position, &body, cfg, dt, false, true);
        aliens.set(i, a);
        i = i + 1;
    }
}

/// One frame of motion for every bullet, wrapped on both axes.
fn move_bullets(bullets: &mut Vec<Bullet>, cfg: &Config, dt: u32)
    requires
        cfg.wf(),
        dt <= MAX_FRAME_MILLIS,
        forall|i: int| 0 <= i < old(bullets)@.len() ==> (#[trigger] old(bullets)@[i]).wf(cfg),
    ensures
        final(bullets)@.len() == old(bullets)@.len(),
        forall|i: int| 0 <= i < old(bullets)@.len() ==> final(bullets)@[i] == (Bullet {
            position: moved_position(
                old(bullets)@[i].position,
                old(bullets)@[i].body,
                dt as int,
                true,
                true,
                cfg,
            ),
            ..old(bullets)@[i]
        }),
        forall|i: int| 0 <= i < old(bullets)@.len() ==> (#[trigger] final(bullets)@[i]).wf(cfg),
{
    let n = bullets.len();
    let mut i: usize = 0;
    while i < n
        invariant
            i <= n,
            cfg.wf(),
            dt <= MAX_FRAME_MILLIS,
            bullets@.len() == n == old(bullets)@.len(),
            forall|j: int| 0 <= j < n ==> (#[trigger] old(bullets)@[j]).wf(cfg),
            forall|j: int| i <= j < n ==> bullets@[j] == old(bullets)@[j],
            forall|j: int| 0 <= j < i ==> bullets@[j] == (Bullet {
                position: moved_position(
                    old(bullets)@[j].position,
                    old(bullets)@[j].body,
                    dt as int,
                    true,
                    true,
                    cfg,
                ),
                ..old(bullets)@[j]
            }),
            forall|j: int| 0 <= j < i ==> (#[trigger] bullets@[j]).wf(cfg),
        decreases n - i,
    {
        let mut b = bullets[i];
        let body = b.body;
        move_position(&mut b.position, &body, cfg, dt, true, true);
        bullets.set(i, b);
        i = i + 1;
    }
}

/// One frame of motion for every asteroid, wrapped on both axes.
fn move_asteroids(asteroids: &mut Vec<Asteroid>, cfg: &Config, dt: u32)
    requires
        cfg.wf(),
        dt <= MAX_FRAME_MILLIS,
        forall|i: int| 0 <= i < old(asteroids)@.len() ==> (#[trigger] old(asteroids)@[i]).wf(cfg),
    ensures
        final(asteroids)@.len() == old(asteroids)@.len(),
        forall|i: int| 0 <= i < old(asteroids)@.len() ==> final(asteroids)@[i] == (Asteroid {
            position: moved_position(
                old(asteroids)@[i].position,
                old(asteroids)@[i].body,
                dt as int,
                true,
                true,
                cfg,
            ),
            ..old(asteroids)@[i]
        }),
        forall|i: int| 0 <= i < old(asteroids)@.len() ==> (#[trigger] final(asteroids)@[i]).wf(
            cfg,
        ),
{
    let n = asteroids.len();
    let mut i: usize = 0;
    while i < n
        invariant
            i <= n,
            cfg.wf(),
            dt <= MAX_FRAME_MILLIS,
            asteroids@.len() == n == old(asteroids)@.len(),
            forall|j: int| 0 <= j < n ==> (#[trigger] old(asteroids)@[j]).wf(cfg),
            forall|j: int| i <= j < n ==> asteroids@[j] == old(asteroids)@[j],
            forall|j: int| 0 <= j < i ==> asteroids@[j] == (Asteroid {
                position: moved_position(
                    old(asteroids)@[j].position,
                    old(asteroids)@[j].body,
                    dt as int,
                    true,
                    true,
                    cfg,
                ),
                ..old(asteroids)@[j]
            }),
            forall|j: int| 0 <= j < i ==> (#[trigger] asteroids@[j]).wf(cfg),
        decreases n - i,
    {
        let mut a = asteroids[i];
        let body = a.body;
        move_position(&mut a.position, &body, cfg, dt, true, true);
        asteroids.set(i, a);
        i = i + 1;
    }
}

/// One frame of drift for every explosion, wrapped on both axes.
fn move_explosions(explosions: &mut Vec<Explosion>, cfg: &Config, dt: u32)
    requires
        cfg.wf(),
        dt <= MAX_FRAME_MILLIS,
        forall|i: int| 0 <= i < old(explosions)@.len() ==> (#[trigger] old(explosions)@[i]).wf(
            cfg,
        ),
    ensures
        final(explosions)@.len() == old(explosions)@.len(),
        forall|i: int| 0 <= i < old(explosions)@.len() ==> final(explosions)@[i] == (Explosion {
            position: moved_position(
                old(explosions)@[i].position,
                old(explosions)@[i].body,
                dt as int,
                true,
                true,
                cfg,
            ),
            ..old(explosions)@[i]
        }),
        forall|i: int| 0 <= i < old(explosions)@.len() ==> (#[trigger] final(explosions)@[i]).wf(
            cfg,
        ),
{
    let n = explosions.len();
    let mut i: usize = 0;
    while i < n
        invariant
            i <= n,
            cfg.wf(),
            dt <= MAX_FRAME_MILLIS,
            explosions@.len() == n == old(explosions)@.len(),
            forall|j: int| 0 <= j < n ==> (#[trigger] old(explosions)@[j]).wf(cfg),
            forall|j: int| i <= j < n ==> explosions@[j] == old(explosions)@[j],
            forall|j: int| 0 <= j < i ==> explosions@[j] == (Explosion {
                position: moved_position(
                    old(explosions)@[j].position,
                    old(explosions)@[j].body,
                    dt as int,
                    true,
                    true,
                    cfg,
                ),
                ..old(explosions)@[j]
            }),
            forall|j: int| 0 <= j < i ==> (#[trigger] explosions@[j]).wf(cfg),
        decreases n - i,
    {
        let mut e = explosions[i];
        let body = e.body;
        move_position(&mut e.position, &body, cfg, dt, true, true);
        explosions.set(i, e);
        i = i + 1;
    }
}

/// How the movement stage relates the world after (`post`) to the world
/// before (`pre`): nothing while paused; otherwise the ship takes its
/// `moved_ship` step (steering only while the level runs) and every other
/// entity advances by its velocity with wraparound, aliens wrapping only
/// vertically and staying within one frame's travel of where they were.
/// State, actions and timers are untouched.
pub open spec fn moving_rel(pre: Game, post: Game, dt: u32, cfg: &Config) -> bool {
    &&& post.state == pre.state
    &&& post.player_actions == pre.player_actions
    &&& post.break_timer == pre.break_timer
    &&& post.alien_timer == pre.alien_timer
    &&& pre.state == GameState::Pause ==> post == pre
    &&& pre.state != GameState::Pause ==> {
        &&& post.ship == (match pre.ship {
            Some(s) => Some(
                moved_ship(
                    s,
                    pre.player_actions,
                    pre.state == GameState::LevelRunning,
                    cfg,
                    dt as int,
                ),
            ),
            None => None::<Ship>,
        })
        &&& post.aliens@.len() == pre.aliens@.len()
        &&& forall|i: int| 0 <= i < pre.aliens@.len() ==> post.aliens@[i] == (Alien {
            position: moved_position(
                pre.aliens@[i].position,
                pre.aliens@[i].body,
                dt as int,
                false,
                true,
                cfg,
            ),
            ..pre.aliens@[i]
        })
        &&& forall|i: int| 0 <= i < pre.aliens@.len() ==> pre.aliens@[i].position.x - MAX_STEP
            <= (#[trigger] post.aliens@[i]).position.x <= pre.aliens@[i].position.x + MAX_STEP
        &&& post.bullets@.len() == pre.bullets@.len()
        &&& forall|i: int| 0 <= i < pre.bullets@.len() ==> post.bullets@[i] == (Bullet {
            position: moved_position(
                pre.bullets@[i].position,
                pre.bullets@[i].body,
                dt as int,
                true,
                true,
                cfg,
            ),
            ..pre.bullets@[i]
        })
        &&& post.asteroids@.len() == pre.asteroids@.len()
        &&& forall|i: int| 0 <= i < pre.asteroids@.len() ==> post.asteroids@[i] == (Asteroid {
            position: moved_position(
                pre.asteroids@[i].position,
                pre.asteroids@[i].body,
                dt as int,
                true,
                true,
                cfg,
            ),
            ..pre.asteroids@[i]
        })
        &&& post.explosions@.len() == pre.explosions@.len()
        &&& forall|i: int| 0 <= i < pre.explosions@.len() ==> post.explosions@[i] == (Explosion {
            position: moved_position(
                pre.explosions@[i].position,
                pre.explosions@[i].body,
                dt as int,
                true,
                true,
                cfg,
            ),
            ..pre.explosions@[i]
        })
    }
}

/// Advances the whole world one frame of motion: ship steering and drag,
/// then every entity's position by its velocity, with wraparound (aliens
/// wrap only vertically), exactly as `moving_rel` states. Skipped entirely
/// while paused; steering applies only while the level runs.
pub fn update(game: &mut Game, cfg: &Config, dt: u32)
    requires
        old(game).entities_wf(cfg),
        cfg.wf(),
        dt <= MAX_FRAME_MILLIS,
        forall|i: int| 0 <= i < old(game).aliens@.len() ==> -6_000_000 <= (#[trigger] old(
            game,
        ).aliens@[i]).position.x <= cfg.arena_width + 6_000_000,
    ensures
        final(game).entities_wf(cfg),
        moving_rel(*old(game), *final(game), dt, cfg),
{
    match game.state {
        GameState::Pause => (),
        _ => {
            let running = match game.state {
                GameState::LevelRunning => true,
                _ => false,
            };
            let ship = game.ship;
            if let Some(mut s) = ship {
                let actions = game.player_actions;
                move_ship(&mut s, &actions, running, cfg, dt);
                game.ship = Some(s);
            }
            move_aliens(&mut game.aliens, cfg, dt);
            move_bullets(&mut game.bullets, cfg, dt);
            move_asteroids(&mut game.asteroids, cfg, dt);
            move_explosions(&mut game.explosions, cfg, dt);
        },
    }
}

} // verus!
