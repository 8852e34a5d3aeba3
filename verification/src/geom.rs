use vstd::prelude::*;

verus! {

use vstd::arithmetic::div_mod::{
    lemma_multiply_divide_le,
    lemma_div_nonincreasing,
    lemma_div_pos_is_pos,
};
use vstd::arithmetic::mul::lemma_mul_inequality;

/// A planar vector or point in milli-units: one thousandth of a world unit.
///
/// The host engine works in float world units; the simulation rules here work
/// on these integer coordinates instead, so every geometric statement can be
/// proved exactly.
#[derive(Clone, Copy, PartialEq, Eq, Structural, Debug)]
pub struct Vec2i {
    pub x: i64,
    pub y: i64,
}

/// Every coordinate the geometry kernel handles stays within this bound.
/// The arena itself is only 600 units (600_000 milli-units) across, so the
/// bound is generous, and it keeps each intermediate product inside `i64`.
pub const COORD_LIMIT: i64 = 10_000_000;

pub open spec fn coord_ok(v: int) -> bool {
    -COORD_LIMIT <= v <= COORD_LIMIT
}

pub open spec fn vec_ok(v: Vec2i) -> bool {
    coord_ok(v.x as int) && coord_ok(v.y as int)
}

/// Division truncating toward zero (the rounding the host's float-to-int
/// casts use), for a positive divisor.
pub open spec fn tdiv(a: int, b: int) -> int
    recommends
        b > 0,
{
    if a >= 0 {
        a / b
    } else {
        -((-a) / b)
    }
}

/// The nonnegative integer square root: the largest `r` with `r * r <= n`.
pub open spec fn spec_sqrt(n: int) -> int
    decreases n,
{
    if n < 1 {
        0
    } else {
        if (spec_sqrt(n - 1) + 1) * (spec_sqrt(n - 1) + 1) <= n {
            spec_sqrt(n - 1) + 1
        } else {
            spec_sqrt(n - 1)
        }
    }
}

pub proof fn lemma_sqrt_bracket(n: int)
    requires
        n >= 0,
    ensures
        spec_sqrt(n) >= 0,
        spec_sqrt(n) * spec_sqrt(n) <= n,
        (spec_sqrt(n) + 1) * (spec_sqrt(n) + 1) > n,
    decreases n,
{
    if n >= 1 {
        lemma_sqrt_bracket(n - 1);
        let s = spec_sqrt(n - 1);
        if (s + 1) * (s + 1) <= n {
            assert((s + 2) * (s + 2) > (s + 1) * (s + 1)) by (nonlinear_arith)
                requires
                    s >= 0,
            ;
        }
    }
}

/// The bracket property pins the root down uniquely.
pub proof fn lemma_sqrt_unique(n: int, r: int)
    requires
        n >= 0,
        r >= 0,
        r * r <= n,
        (r + 1) * (r + 1) > n,
    ensures
        r == spec_sqrt(n),
{
    lemma_sqrt_bracket(n);
    let s = spec_sqrt(n);
    if r < s {
        lemma_mul_inequality(r + 1, s, s);
        lemma_mul_inequality(r + 1, s, r + 1);
        assert(false);
    }
    if s < r {
        lemma_mul_inequality(s + 1, r, r);
        lemma_mul_inequality(s + 1, r, s + 1);
        assert(false);
    }
}

/// Binary-search integer square root.
pub fn isqrt(n: u64) -> (r: u64)
    requires
        n <= 1_000_000_000_000_000_000,
    ensures
        r == spec_sqrt(n as int),
        r * r <= n,
        (r + 1) * (r + 1) > n,
        r <= 1_000_000_000,
{
    let mut lo: u64 = 0;
    let mut hi: u64 = 1_000_000_001;
    proof {
        assert(1_000_000_001 * 1_000_000_001 > n as int) by (nonlinear_arith)
            requires
                n <= 1_000_000_000_000_000_000,
        ;
    }
    while lo + 1 < hi
        invariant
            lo < hi <= 1_000_000_001,
            n <= 1_000_000_000_000_000_000,
            lo * lo <= n,
            hi * hi > n,
        decreases hi - lo,
    {
        let mid = lo + (hi - lo) / 2;
        proof {
            assert(mid * mid <= 1_000_000_001 * 1_000_000_001) by (nonlinear_arith)
                requires
                    0 <= mid <= 1_000_000_001,
            ;
        }
        if mid * mid <= n {
            lo = mid;
        } else {
            hi = mid;
        }
    }
    proof {
        lemma_sqrt_unique(n as int, lo as int);
    }
    lo
}

/// A number whose square stays below `d2` is itself bounded by the root.
pub proof fn lemma_abs_le_sqrt(d: int, d2: int)
    requires
        0 <= d2,
        d * d <= d2,
    ensures
        -spec_sqrt(d2) <= d <= spec_sqrt(d2),
{
    let len = spec_sqrt(d2);
    lemma_sqrt_bracket(d2);
    if d > len {
        lemma_mul_inequality(len + 1, d, d);
        lemma_mul_inequality(len + 1, d, len + 1);
    }
    if d < -len {
        assert(d * d >= (len + 1) * (len + 1)) by (nonlinear_arith)
            requires
                d < -len,
                len >= 0,
        ;
    }
}

/// Bhaskara's rational sine approximation on the first half wave,
/// in milli-units: `sin(d degrees) ~ 4000 d (180 - d) / (40500 - d (180 - d))`
/// for `0 <= d <= 180`.  It is exact at 0, 30, 90, 150 and 180 degrees.
pub open spec fn spec_sin_half_milli(d: int) -> int {
    4000 * (d * (180 - d)) / (40500 - d * (180 - d))
}

/// Sine in milli-units of an angle given in whole degrees, `0 <= d < 360`.
pub open spec fn spec_sin_milli(d: int) -> int {
    if d <= 180 {
        spec_sin_half_milli(d)
    } else {
        -spec_sin_half_milli(d - 180)
    }
}

/// Cosine in milli-units via the quarter-turn shift of the sine.
pub open spec fn spec_cos_milli(d: int) -> int {
    if d < 270 {
        spec_sin_milli(d + 90)
    } else {
        spec_sin_milli(d - 270)
    }
}

proof fn lemma_sin_half_bounds(d: int)
    requires
        0 <= d <= 180,
    ensures
        0 <= spec_sin_half_milli(d) <= 1000,
{
    let p = d * (180 - d);
    assert(0 <= p <= 8100) by (nonlinear_arith)
        requires
            0 <= d <= 180,
            p == d * (180 - d),
    ;
    assert(4000 * p <= 1000 * (40500 - p));
    lemma_multiply_divide_le(4000 * p, 40500 - p, 1000);
    if p > 0 {
        lemma_div_pos_is_pos(4000 * p, 40500 - p);
    }
}

pub proof fn lemma_sin_milli_bounds(d: int)
    requires
        0 <= d < 360,
    ensures
        -1000 <= spec_sin_milli(d) <= 1000,
{
    if d <= 180 {
        lemma_sin_half_bounds(d);
    } else {
        lemma_sin_half_bounds(d - 180);
    }
}

/// Sine in milli-units of `deg` whole degrees.
pub fn sin_milli(deg: u64) -> (r: i64)
    requires
        deg < 360,
    ensures
        r == spec_sin_milli(deg as int),
        -1000 <= r <= 1000,
{
    if deg <= 180 {
        proof {
            assert(0 <= deg * (180 - deg) <= 8100) by (nonlinear_arith)
                requires
                    deg <= 180,
            ;
            lemma_sin_half_bounds(deg as int);
        }
        let p: u64 = deg * (180 - deg);
        let num: u64 = 4000 * p;
        let den: u64 = 40500 - p;
        let q: u64 = num / den;
        proof {
            assert(q == spec_sin_half_milli(deg as int));
        }
        q as i64
    } else {
        let d: u64 = deg - 180;
        proof {
            assert(0 <= d * (180 - d) <= 8100) by (nonlinear_arith)
                requires
                    d <= 180,
            ;
            lemma_sin_half_bounds(d as int);
        }
        let p: u64 = d * (180 - d);
        let num: u64 = 4000 * p;
        let den: u64 = 40500 - p;
        let q: u64 = num / den;
        proof {
            assert(q == spec_sin_half_milli(d as int));
        }
        -(q as i64)
    }
}

/// Cosine in milli-units of `deg` whole degrees.
pub fn cos_milli(deg: u64) -> (r: i64)
    requires
        deg < 360,
    ensures
        r == spec_cos_milli(deg as int),
        -1000 <= r <= 1000,
{
    if deg < 270 {
        sin_milli(deg + 90)
    } else {
        sin_milli(deg - 270)
    }
}

/// Truncating division by a positive divisor, matching `tdiv`.
pub fn div_trunc(a: i64, b: i64) -> (r: i64)
    requires
        b > 0,
        a > i64::MIN,
    ensures
        r == tdiv(a as int, b as int),
{
    if a >= 0 {
        proof {
            lemma_div_nonincreasing(a as int, b as int);
            lemma_div_pos_is_pos(a as int, b as int);
        }
        ((a as u64) / (b as u64)) as i64
    } else {
        proof {
            lemma_div_nonincreasing(-(a as int), b as int);
            lemma_div_pos_is_pos(-(a as int), b as int);
        }
        -((((-a) as u64) / (b as u64)) as i64)
    }
}

/// A vector rotated counterclockwise by `deg` whole degrees, in the kernel's
/// milli-unit fixed-point arithmetic.
pub open spec fn spec_rotate_milli(v: Vec2i, deg: int) -> Vec2i {
    Vec2i {
        x: tdiv(v.x * spec_cos_milli(deg) - v.y * spec_sin_milli(deg), 1000) as i64,
        y: tdiv(v.x * spec_sin_milli(deg) + v.y * spec_cos_milli(deg), 1000) as i64,
    }
}

/// `|a| <= b * m` gives `|tdiv(a, b)| <= m`.
pub proof fn lemma_tdiv_bound(a: int, b: int, m: int)
    requires
        b > 0,
        m >= 0,
        -(b * m) <= a <= b * m,
    ensures
        -m <= tdiv(a, b) <= m,
{
    if a >= 0 {
        lemma_multiply_divide_le(a, b, m);
        lemma_div_pos_is_pos(a, b);
    } else {
        lemma_multiply_divide_le(-a, b, m);
        lemma_div_pos_is_pos(-a, b);
    }
}

pub fn rotate_milli(v: Vec2i, deg: u64) -> (r: Vec2i)
    requires
        vec_ok(v),
        deg < 360,
    ensures
        r == spec_rotate_milli(v, deg as int),
        -2 * COORD_LIMIT <= r.x <= 2 * COORD_LIMIT,
        -2 * COORD_LIMIT <= r.y <= 2 * COORD_LIMIT,
{
    let c = cos_milli(deg);
    let s = sin_milli(deg);
    proof {
        assert(-10_000_000_000 <= v.x * c <= 10_000_000_000 && -10_000_000_000 <= v.y * s
            <= 10_000_000_000 && -10_000_000_000 <= v.x * s <= 10_000_000_000 && -10_000_000_000
            <= v.y * c <= 10_000_000_000) by (nonlinear_arith)
            requires
                -10_000_000 <= v.x <= 10_000_000,
                -10_000_000 <= v.y <= 10_000_000,
                -1000 <= c <= 1000,
                -1000 <= s <= 1000,
        ;
    }
    let xs: i64 = v.x * c - v.y * s;
    let ys: i64 = v.x * s + v.y * c;
    let rx = div_trunc(xs, 1000);
    let ry = div_trunc(ys, 1000);
    proof {
        lemma_tdiv_bound(xs as int, 1000, 2 * COORD_LIMIT as int);
        lemma_tdiv_bound(ys as int, 1000, 2 * COORD_LIMIT as int);
    }
    Vec2i { x: rx, y: ry }
}

/// A vector scaled by `k / 1000`, truncating toward zero.
pub open spec fn spec_scale_milli(v: Vec2i, k: int) -> Vec2i {
    Vec2i { x: tdiv(v.x * k, 1000) as i64, y: tdiv(v.y * k, 1000) as i64 }
}

pub fn scale_milli(v: Vec2i, k: i64) -> (r: Vec2i)
    requires
        0 < k <= 100_000,
        -2 * COORD_LIMIT <= v.x <= 2 * COORD_LIMIT,
        -2 * COORD_LIMIT <= v.y <= 2 * COORD_LIMIT,
    ensures
        r == spec_scale_milli(v, k as int),
        -200 * COORD_LIMIT <= r.x <= 200 * COORD_LIMIT,
        -200 * COORD_LIMIT <= r.y <= 200 * COORD_LIMIT,
{
    proof {
        assert(-2_000_000_000_000 <= v.x * k <= 2_000_000_000_000 && -2_000_000_000_000 <= v.y * k
            <= 2_000_000_000_000) by (nonlinear_arith)
            requires
                -20_000_000 <= v.x <= 20_000_000,
                -20_000_000 <= v.y <= 20_000_000,
                0 < k <= 100_000,
        ;
    }
    let xs: i64 = v.x * k;
    let ys: i64 = v.y * k;
    let rx = div_trunc(xs, 1000);
    let ry = div_trunc(ys, 1000);
    proof {
        lemma_tdiv_bound(xs as int, 1000, 200 * COORD_LIMIT as int);
        lemma_tdiv_bound(ys as int, 1000, 200 * COORD_LIMIT as int);
    }
    Vec2i { x: rx, y: ry }
}

/// The velocity of magnitude about `speed` (in milli-units) pointing from
/// `from` toward `to`; the zero vector when the two points coincide.
pub open spec fn spec_aim(from: Vec2i, to: Vec2i, speed: int) -> Vec2i {
    let dx = to.x - from.x;
    let dy = to.y - from.y;
    let d2 = dx * dx + dy * dy;
    if d2 == 0 {
        Vec2i { x: 0, y: 0 }
    } else {
        let len = spec_sqrt(d2);
        Vec2i { x: tdiv(dx * speed, len) as i64, y: tdiv(dy * speed, len) as i64 }
    }
}

pub fn aim_velocity(from: Vec2i, to: Vec2i, speed: i64) -> (r: Vec2i)
    requires
        vec_ok(from),
        vec_ok(to),
        0 < speed <= 100_000,
    ensures
        r == spec_aim(from, to, speed as int),
        -(speed as int) <= r.x <= speed as int,
        -(speed as int) <= r.y <= speed as int,
{
    let dx: i64 = to.x - from.x;
    let dy: i64 = to.y - from.y;
    proof {
        assert(0 <= dx * dx <= 400_000_000_000_000 && 0 <= dy * dy <= 400_000_000_000_000)
            by (nonlinear_arith)
            requires
                -20_000_000 <= dx <= 20_000_000,
                -20_000_000 <= dy <= 20_000_000,
        ;
    }
    let d2: u64 = (dx * dx) as u64 + (dy * dy) as u64;
    if d2 == 0 {
        Vec2i { x: 0, y: 0 }
    } else {
        let len: u64 = isqrt(d2);
        proof {
            lemma_aim_component_bound(dx as int, len as int, d2 as int, speed as int);
            lemma_aim_component_bound(dy as int, len as int, d2 as int, speed as int);
            assert(-2_000_000_000_000 <= dx * speed <= 2_000_000_000_000 && -2_000_000_000_000
                <= dy * speed <= 2_000_000_000_000) by (nonlinear_arith)
                requires
                    -20_000_000 <= dx <= 20_000_000,
                    -20_000_000 <= dy <= 20_000_000,
                    0 < speed <= 100_000,
            ;
        }
        let rx = div_trunc(dx * speed, len as i64);
        let ry = div_trunc(dy * speed, len as i64);
        Vec2i { x: rx, y: ry }
    }
}

/// A component of the aimed velocity is bounded by the speed, because
/// `|d| <= sqrt(d2)` whenever `d * d <= d2`.
proof fn lemma_aim_component_bound(d: int, len: int, d2: int, speed: int)
    requires
        0 < d2,
        d * d <= d2,
        len == spec_sqrt(d2),
        0 < speed <= 100_000,
    ensures
        1 <= len,
        -(len * speed) <= d * speed <= len * speed,
        -speed <= tdiv(d * speed, len) <= speed,
{
    lemma_sqrt_bracket(d2);
    assert(len >= 1) by {
        if len == 0 {
            assert((0 + 1) * (0 + 1) > d2);
        }
    }
    assert(-len <= d <= len) by {
        if d > len {
            lemma_mul_inequality(len + 1, d, d);
            lemma_mul_inequality(len + 1, d, len + 1);
        }
        if d < -len {
            assert(d * d >= (len + 1) * (len + 1)) by (nonlinear_arith)
                requires
                    d < -len,
                    len >= 0,
            ;
        }
    };
    assert(-(len * speed) <= d * speed <= len * speed) by (nonlinear_arith)
        requires
            -len <= d <= len,
            speed > 0,
    ;
    lemma_tdiv_bound(d * speed, len, speed);
}

} // verus!
