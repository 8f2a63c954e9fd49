//! Fixed-point trigonometry for the simulation: sine and cosine in
//! thousandths over whole-degree angles (a rational approximation that is
//! exact at the axes), an integer square root, an arccosine, and the
//! best-aim heading search. All of it is exact integer arithmetic, so every
//! caller's contract can speak of these functions directly.

use vstd::arithmetic::div_mod::{
    lemma_div_by_multiple, lemma_div_is_ordered, lemma_div_pos_is_pos,
};
use vstd::prelude::*;

verus! {

/// Signed value encoded as a sign flag and a magnitude.
pub open spec fn sval(neg: bool, mag: int) -> int {
    if neg {
        -mag
    } else {
        mag
    }
}

/// Sine of `d` degrees for `d` in `[0, 180]`, in thousandths: the rational
/// approximation `4000 d (180 - d) / (40500 - d (180 - d))`, which is exact
/// at 0, 30, 90, 150 and 180 degrees and within two thousandths elsewhere.
pub open spec fn sin_half(d: int) -> int {
    (4000 * (d * (180 - d))) / (40500 - d * (180 - d))
}

/// Sine of `a` degrees for `a` in `[0, 360)`, in thousandths.
pub open spec fn sin_milli(a: int) -> int {
    if a <= 180 {
        sin_half(a)
    } else {
        -sin_half(a - 180)
    }
}

/// Cosine of `a` degrees for `a` in `[0, 360)`, in thousandths.
pub open spec fn cos_milli(a: int) -> int {
    sin_milli((a + 90) % 360)
}

/// On `[0, 180]` the sine approximation stays within `[0, 1000]`.
pub proof fn lemma_sin_half_bounds(d: int)
    requires
        0 <= d <= 180,
    ensures
        0 <= sin_half(d) <= 1000,
{
    assert(0 <= d * (180 - d) <= 8100) by (nonlinear_arith)
        requires
            0 <= d <= 180,
    ;
    let p = d * (180 - d);
    lemma_div_pos_is_pos(4000 * p, 40500 - p);
    assert(4000 * p <= 1000 * (40500 - p));
    lemma_div_is_ordered(4000 * p, 1000 * (40500 - p), 40500 - p);
    lemma_div_by_multiple(1000, 40500 - p);
}

/// Sine for `d` in `[0, 180]` degrees, in thousandths.
pub fn sin_half_x(d: u32) -> (r: u32)
    requires
        d <= 180,
    ensures
        r == sin_half(d as int),
        r <= 1000,
{
    proof {
        lemma_sin_half_bounds(d as int);
        assert(0 <= d * (180 - d) <= 8100) by (nonlinear_arith)
            requires
                0 <= d <= 180,
        ;
    }
    let p: u32 = d * (180 - d);
    let num: u32 = 4000 * p;
    let den: u32 = 40500 - p;
    num / den
}

/// Full-circle sine as a sign and a magnitude in thousandths.
pub fn sin_parts(a: u32) -> (r: (bool, u64))
    requires
        a < 360,
    ensures
        r.1 <= 1000,
        sval(r.0, r.1 as int) == sin_milli(a as int),
{
    if a <= 180 {
        (false, sin_half_x(a) as u64)
    } else {
        (true, sin_half_x(a - 180) as u64)
    }
}

/// Full-circle cosine as a sign and a magnitude in thousandths.
pub fn cos_parts(a: u32) -> (r: (bool, u64))
    requires
        a < 360,
    ensures
        r.1 <= 1000,
        sval(r.0, r.1 as int) == cos_milli(a as int),
{
    let shifted: u32 = (a + 90) % 360;
    sin_parts(shifted)
}

/// Whether the signed value `(an, am)` is at most `(bn, bm)`.
pub fn sle(an: bool, am: u64, bn: bool, bm: u64) -> (r: bool)
    ensures
        r == (sval(an, am as int) <= sval(bn, bm as int)),
{
    match (an, bn) {
        (true, true) => bm <= am,
        (true, false) => true,
        (false, true) => am == 0 && bm == 0,
        (false, false) => am <= bm,
    }
}

/// `r` is the integer square root of `n`.
pub open spec fn is_isqrt(n: int, r: int) -> bool {
    &&& 0 <= r
    &&& r * r <= n
    &&& n < (r + 1) * (r + 1)
}

/// The integer square root of `n`: the greatest `r` with `r * r <= n`.
pub open spec fn spec_isqrt(n: int) -> int {
    choose|r: int| is_isqrt(n, r)
}

/// The integer square root is unique, so any witness is the chosen one.
pub proof fn lemma_isqrt_unique(n: int, r: int)
    requires
        is_isqrt(n, r),
    ensures
        spec_isqrt(n) == r,
{
    assert(exists|x: int| is_isqrt(n, x)) by {
        assert(is_isqrt(n, r));
    }
    let c = spec_isqrt(n);
    assert(is_isqrt(n, c));
    if c < r {
        assert((c + 1) * (c + 1) <= r * r) by (nonlinear_arith)
            requires
                0 <= c,
                c < r,
        ;
    }
    if r < c {
        assert((r + 1) * (r + 1) <= c * c) by (nonlinear_arith)
            requires
                0 <= r,
                r < c,
        ;
    }
}

/// Integer square root: the greatest `r` with `r * r <= n`.
pub fn isqrt64(n: u64) -> (r: u64)
    ensures
        r * r <= n,
        n < (r + 1) * (r + 1),
        r == spec_isqrt(n as int),
{
    let r = isqrt64_inner(n);
    proof {
        lemma_isqrt_unique(n as int, r as int);
    }
    r
}

fn isqrt64_inner(n: u64) -> (r: u64)
    ensures
        r * r <= n,
        n < (r + 1) * (r + 1),
{
    let mut lo: u64 = 0;
    let mut hi: u64 = 4_294_967_296;
    proof {
        assert(n < 4_294_967_296u64 * 4_294_967_296u64) by (nonlinear_arith)
            requires
                n <= u64::MAX,
        ;
    }
    while lo + 1 < hi
        invariant
            lo < hi,
            hi <= 4_294_967_296,
            lo * lo <= n,
            n < hi * hi,
        decreases hi - lo,
    {
        let mid: u64 = lo + (hi - lo) / 2;
        proof {
            assert(mid * mid <= 4_294_967_295u64 * 4_294_967_295u64) by (nonlinear_arith)
                requires
                    0 <= mid <= 4_294_967_295u64,
            ;
        }
        if mid * mid <= n {
            lo = mid;
        } else {
            hi = mid;
        }
    }
    lo
}

/// `a` is the discrete arccosine of `x` (in thousandths): the least angle
/// in `[0, 180]` degrees whose cosine is at most `x`.
pub open spec fn is_acos(x: int, a: int) -> bool {
    &&& 0 <= a <= 180
    &&& cos_milli(a) <= x
    &&& forall|b: int| 0 <= b < a ==> cos_milli(b) > x
}

/// The discrete arccosine of `x`, in whole degrees.
pub open spec fn spec_acos(x: int) -> int {
    choose|a: int| is_acos(x, a)
}

/// The discrete arccosine is unique, so any witness is the chosen one.
pub proof fn lemma_acos_unique(x: int, a: int)
    requires
        is_acos(x, a),
    ensures
        spec_acos(x) == a,
{
    assert(exists|b: int| is_acos(x, b)) by {
        assert(is_acos(x, a));
    }
    let c = spec_acos(x);
    assert(is_acos(x, c));
    if c < a {
        assert(cos_milli(c) > x);
    }
    if a < c {
        assert(cos_milli(a) > x);
    }
}

/// The least angle in `[0, 180]` degrees whose cosine is at most the signed
/// value `(xn, xm)` (in thousandths): a discrete arccosine.
pub fn acos_milli(xn: bool, xm: u64) -> (r: u32)
    requires
        xm <= 1000,
    ensures
        r <= 180,
        cos_milli(r as int) <= sval(xn, xm as int),
        forall|b: int| 0 <= b < r ==> cos_milli(b) > sval(xn, xm as int),
        r == spec_acos(sval(xn, xm as int)),
{
    let r = acos_milli_inner(xn, xm);
    proof {
        lemma_acos_unique(sval(xn, xm as int), r as int);
    }
    r
}

fn acos_milli_inner(xn: bool, xm: u64) -> (r: u32)
    requires
        xm <= 1000,
    ensures
        r <= 180,
        cos_milli(r as int) <= sval(xn, xm as int),
        forall|b: int| 0 <= b < r ==> cos_milli(b) > sval(xn, xm as int),
{
    let mut a: u32 = 0;
    while a < 180
        invariant
            a <= 180,
            xm <= 1000,
            forall|b: int| 0 <= b < a ==> cos_milli(b) > sval(xn, xm as int),
        decreases 180 - a,
    {
        let (cn, cm) = cos_parts(a);
        if sle(cn, cm, xn, xm) {
            return a;
        }
        a = a + 1;
    }
    proof {
        assert((180 + 90) % 360 == 270);
        assert(90 * (180 - 90) == 8100);
        lemma_div_by_multiple(1000, 32400);
        assert(sin_half(90) == 1000);
        assert(cos_milli(180) == -1000);
    }
    180
}

/// The cosine of zero degrees is exactly one.
pub proof fn lemma_cos_zero()
    ensures
        cos_milli(0) == 1000,
{
    assert((0 + 90) % 360 == 90);
    assert(90 * (180 - 90) == 8100);
    lemma_div_by_multiple(1000, 32400);
    assert(sin_half(90) == 1000);
}

/// Alignment of heading `a` with the direction `(dx, dy)`: the dot product
/// of `(dx, dy)` with the heading's unit vector, in thousandths.
pub open spec fn dot_milli(dx: int, dy: int, a: int) -> int {
    dx * cos_milli(a) + dy * sin_milli(a)
}

/// Alignment of heading `a` with the direction `(dx, dy)`, executable.
fn dot_at(dx: i64, dy: i64, a: u32) -> (d: i64)
    requires
        a < 360,
        -1_000_000_000 <= dx <= 1_000_000_000,
        -1_000_000_000 <= dy <= 1_000_000_000,
    ensures
        d == dot_milli(dx as int, dy as int, a as int),
{
    let (cn, cm) = cos_parts(a);
    let (sn, sm) = sin_parts(a);
    let cv: i64 = if cn {
        -(cm as i64)
    } else {
        cm as i64
    };
    let sv: i64 = if sn {
        -(sm as i64)
    } else {
        sm as i64
    };
    proof {
        assert(-2_000_000_000_000i64 <= dx * cv <= 2_000_000_000_000i64) by (nonlinear_arith)
            requires
                -1_000_000_000 <= dx <= 1_000_000_000,
                -1000 <= cv <= 1000,
        ;
        assert(-2_000_000_000_000i64 <= dy * sv <= 2_000_000_000_000i64) by (nonlinear_arith)
            requires
                -1_000_000_000 <= dy <= 1_000_000_000,
                -1000 <= sv <= 1000,
        ;
    }
    dx * cv + dy * sv
}

/// `a` is the best aim toward `(dx, dy)`: the least whole-degree heading
/// maximizing the alignment `dot_milli`.
pub open spec fn is_best_aim(dx: int, dy: int, a: int) -> bool {
    &&& 0 <= a < 360
    &&& forall|b: int| 0 <= b < 360 ==> dot_milli(dx, dy, a) >= dot_milli(dx, dy, b)
    &&& forall|b: int| 0 <= b < a ==> dot_milli(dx, dy, b) < dot_milli(dx, dy, a)
}

/// The whole-degree heading best aligned with the direction `(dx, dy)`.
pub open spec fn spec_aim(dx: int, dy: int) -> int {
    choose|a: int| is_best_aim(dx, dy, a)
}

/// The best aim is unique, so any witness is the chosen one.
pub proof fn lemma_aim_unique(dx: int, dy: int, a: int)
    requires
        is_best_aim(dx, dy, a),
    ensures
        spec_aim(dx, dy) == a,
{
    assert(exists|b: int| is_best_aim(dx, dy, b)) by {
        assert(is_best_aim(dx, dy, a));
    }
    let c = spec_aim(dx, dy);
    assert(is_best_aim(dx, dy, c));
    if c < a {
        assert(dot_milli(dx, dy, c) < dot_milli(dx, dy, a));
        assert(dot_milli(dx, dy, a) <= dot_milli(dx, dy, c));
    }
    if a < c {
        assert(dot_milli(dx, dy, a) < dot_milli(dx, dy, c));
        assert(dot_milli(dx, dy, c) <= dot_milli(dx, dy, a));
    }
}

/// The whole-degree heading best aligned with the direction `(dx, dy)`:
/// the least angle maximizing `dot_milli`. Aiming from one position toward
/// another uses the difference of the positions.
pub fn aim_angle(dx: i64, dy: i64) -> (r: u32)
    requires
        -1_000_000_000 <= dx <= 1_000_000_000,
        -1_000_000_000 <= dy <= 1_000_000_000,
    ensures
        r < 360,
        r == spec_aim(dx as int, dy as int),
        forall|b: int| 0 <= b < 360 ==> dot_milli(dx as int, dy as int, r as int)
            >= dot_milli(dx as int, dy as int, b),
        forall|b: int| 0 <= b < r ==> dot_milli(dx as int, dy as int, b)
            < dot_milli(dx as int, dy as int, r as int),
{
    let r = aim_angle_inner(dx, dy);
    proof {
        lemma_aim_unique(dx as int, dy as int, r as int);
    }
    r
}

fn aim_angle_inner(dx: i64, dy: i64) -> (r: u32)
    requires
        -1_000_000_000 <= dx <= 1_000_000_000,
        -1_000_000_000 <= dy <= 1_000_000_000,
    ensures
        r < 360,
        forall|b: int| 0 <= b < 360 ==> dot_milli(dx as int, dy as int, r as int)
            >= dot_milli(dx as int, dy as int, b),
        forall|b: int| 0 <= b < r ==> dot_milli(dx as int, dy as int, b)
            < dot_milli(dx as int, dy as int, r as int),
{
    let mut best: u32 = 0;
    let mut best_dot: i64 = dot_at(dx, dy, 0);
    let mut a: u32 = 1;
    while a < 360
        invariant
            -1_000_000_000 <= dx <= 1_000_000_000,
            -1_000_000_000 <= dy <= 1_000_000_000,
            1 <= a <= 360,
            best < a,
            best_dot == dot_milli(dx as int, dy as int, best as int),
            forall|b: int| 0 <= b < a ==> best_dot >= dot_milli(dx as int, dy as int, b),
            forall|b: int| 0 <= b < best ==> dot_milli(dx as int, dy as int, b) < best_dot,
        decreases 360 - a,
    {
        let d = dot_at(dx, dy, a);
        if d > best_dot {
            best = a;
            best_dot = d;
        }
        a = a + 1;
    }
    best
}

} // verus!
