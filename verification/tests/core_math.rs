//! Exercises the fixed-point math the simulation is built on: sine/cosine,
//! square root, arccosine, aiming, vector composition, wraparound motion
//! and the circle-intersection primitive.

use asteroids::cfg::Config;
use asteroids::entity::{Body, Vec2};
use asteroids::systems::collision::do_collision;
use asteroids::systems::moving::{
    add_angle, move_position, offset_position, sub_angle, sum_vectors, wrap_coord,
};
use asteroids::trig::{acos_milli, aim_angle, cos_parts, isqrt64, sin_half_x, sin_parts};

fn body(radius: u64, angle: u32, speed: u64) -> Body {
    Body { radius, angle, speed, is_hit: false }
}

#[test]
fn sine_is_exact_at_the_axes() {
    assert_eq!(sin_half_x(0), 0);
    assert_eq!(sin_half_x(30), 500);
    assert_eq!(sin_half_x(90), 1000);
    assert_eq!(sin_half_x(150), 500);
    assert_eq!(sin_half_x(180), 0);
}

#[test]
fn full_circle_sine_and_cosine_signs() {
    assert_eq!(sin_parts(90), (false, 1000));
    assert_eq!(sin_parts(270), (true, 1000));
    assert_eq!(cos_parts(0), (false, 1000));
    assert_eq!(cos_parts(180), (true, 1000));
    assert_eq!(cos_parts(60), (false, 500));
}

#[test]
fn integer_square_root_brackets() {
    assert_eq!(isqrt64(0), 0);
    assert_eq!(isqrt64(15), 3);
    assert_eq!(isqrt64(16), 4);
    assert_eq!(isqrt64(25_000_000), 5_000);
    assert_eq!(isqrt64(1_000_000_000_000), 1_000_000);
}

#[test]
fn arccosine_at_the_boundaries() {
    assert_eq!(acos_milli(false, 1000), 0);
    assert_eq!(acos_milli(false, 0), 90);
    assert_eq!(acos_milli(true, 1000), 180);
    assert_eq!(acos_milli(false, 600), 54);
}

#[test]
fn aiming_along_the_axes() {
    assert_eq!(aim_angle(1000, 0), 0);
    assert_eq!(aim_angle(0, 1000), 90);
    assert_eq!(aim_angle(-1000, 0), 180);
    assert_eq!(aim_angle(0, -1000), 270);
}

#[test]
fn angle_arithmetic_wraps() {
    assert_eq!(add_angle(350, 20), 10);
    assert_eq!(sub_angle(10, 20), 350);
    assert_eq!(add_angle(0, 360), 0);
}

#[test]
fn adding_thrust_to_rest_keeps_heading() {
    // Composing a vector onto a zero-magnitude velocity returns the thrust
    // magnitude with the heading untouched.
    assert_eq!(sum_vectors(0, 123, 5000, 123), (5000, 123));
    assert_eq!(sum_vectors(0, 0, 160_000, 0), (160_000, 0));
}

#[test]
fn collinear_thrust_is_scalar_addition() {
    assert_eq!(sum_vectors(1000, 10, 1000, 10), (2000, 10));
    assert_eq!(sum_vectors(140_000, 359, 20_000, 359), (160_000, 359));
}

#[test]
fn perpendicular_thrust_rotates_toward_the_impulse() {
    // A 3-4-5 triangle: the resultant is 5000 at 54 whole degrees (the
    // fixed-point arccosine of 0.6).
    assert_eq!(sum_vectors(3000, 0, 4000, 90), (5000, 54));
    assert_eq!(sum_vectors(3000, 45, 4000, 135), (5000, 99));
}

#[test]
fn wrap_coord_is_the_euclidean_remainder() {
    assert_eq!(wrap_coord(455_900, 432_000), 23_900);
    assert_eq!(wrap_coord(-100, 432_000), 431_900);
    assert_eq!(wrap_coord(0, 432_000), 0);
    assert_eq!(wrap_coord(-432_000, 432_000), 0);
}

#[test]
fn movement_wraps_both_axes() {
    let cfg = Config::standard();
    // A bullet-speed body heading right for a tenth of a second covers
    // 24 units and wraps across the right edge.
    let mut p = Vec2 { x: 431_900, y: 100_000 };
    move_position(&mut p, &body(1_200, 0, 240_000), &cfg, 100, true, true);
    assert_eq!(p, Vec2 { x: 23_900, y: 100_000 });
    // Heading left across the left edge.
    let mut q = Vec2 { x: 100, y: 100_000 };
    move_position(&mut q, &body(1_200, 180, 240_000), &cfg, 100, true, true);
    assert_eq!(q, Vec2 { x: 408_100, y: 100_000 });
    // Heading up across the top edge.
    let mut r = Vec2 { x: 100_000, y: 100 };
    move_position(&mut r, &body(1_200, 270, 240_000), &cfg, 100, true, true);
    assert_eq!(r, Vec2 { x: 100_000, y: 216_100 });
}

#[test]
fn aliens_do_not_wrap_horizontally() {
    let cfg = Config::standard();
    let mut p = Vec2 { x: 431_900, y: 100_000 };
    move_position(&mut p, &body(5_500, 0, 32_000), &cfg, 100, false, true);
    assert_eq!(p, Vec2 { x: 435_100, y: 100_000 });
}

#[test]
fn muzzle_offset_lands_ahead_of_the_shooter() {
    let cfg = Config::standard();
    let p = Vec2 { x: 100_000, y: 100_000 };
    assert_eq!(
        offset_position(p, 0, 4_000, &cfg),
        Vec2 { x: 104_000, y: 100_000 }
    );
    assert_eq!(
        offset_position(p, 90, 4_000, &cfg),
        Vec2 { x: 100_000, y: 104_000 }
    );
}

#[test]
fn collision_flags_both_or_neither() {
    // Touching circles: both flagged.
    let mut a = body(4_000, 0, 0);
    let mut b = body(4_000, 0, 0);
    do_collision(
        Vec2 { x: 100_000, y: 100_000 },
        &mut a,
        Vec2 { x: 107_000, y: 100_000 },
        &mut b,
    );
    assert!(a.is_hit);
    assert!(b.is_hit);
    // Separated circles: neither flagged.
    let mut c = body(4_000, 0, 0);
    let mut d = body(4_000, 0, 0);
    do_collision(
        Vec2 { x: 100_000, y: 100_000 },
        &mut c,
        Vec2 { x: 109_000, y: 100_000 },
        &mut d,
    );
    assert!(!c.is_hit);
    assert!(!d.is_hit);
}

#[test]
fn collision_boundary_is_the_summed_radii() {
    // Exactly touching (distance equals the radius sum) counts as a hit.
    let mut a = body(4_000, 0, 0);
    let mut b = body(4_000, 0, 0);
    do_collision(
        Vec2 { x: 100_000, y: 100_000 },
        &mut a,
        Vec2 { x: 108_000, y: 100_000 },
        &mut b,
    );
    assert!(a.is_hit && b.is_hit);
    // One milli-unit farther is a miss.
    let mut c = body(4_000, 0, 0);
    let mut d = body(4_000, 0, 0);
    do_collision(
        Vec2 { x: 100_000, y: 100_000 },
        &mut c,
        Vec2 { x: 108_001, y: 100_000 },
        &mut d,
    );
    assert!(!c.is_hit && !d.is_hit);
}
