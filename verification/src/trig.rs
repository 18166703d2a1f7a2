//! Fixed-point angles and rotations.
//!
//! Angles are `i64` micro-radians; a full turn is `TAU_URAD`. Sine and
//! cosine are computed with Bhaskara's rational approximation in integer
//! arithmetic, scaled by `TRIG_SCALE`. The approximation is exact at the
//! quarter-turn points, so rotating by a zero heading is the identity, and
//! it is a pure function of the angle, which keeps every rotation
//! bit-reproducible.

use vstd::prelude::*;
use crate::geom::{Vec2, abs_i, COORD_LIMIT};
use vstd::arithmetic::div_mod::{
    lemma_mod_multiples_vanish,
    lemma_small_mod,
    lemma_div_is_ordered,
    lemma_div_multiples_vanish,
    lemma_div_pos_is_pos,
};

verus! {

/// One full turn, in micro-radians. Chosen divisible by 16 so that the
/// catalog's quarter-, eighth- and sixteenth-turn limits are exact.
pub const TAU_URAD: i64 = 6_283_184;

/// Half a turn, in micro-radians.
pub const PI_URAD: i64 = 3_141_592;

/// A quarter turn, in micro-radians.
pub const HALF_PI_URAD: i64 = 1_570_796;

/// Scale of the sine and cosine values: `TRIG_SCALE` stands for 1.0.
pub const TRIG_SCALE: i64 = 1_000_000;

/// Largest angle magnitude the trigonometric routines accept.
pub const MAX_ANGLE_ARG: i64 = 5_000_000_000_000;

/// The representative of `a` in `[0, TAU_URAD)`; `%` here is the Euclidean
/// remainder.
pub open spec fn spec_norm_angle(a: int) -> int {
    a % (TAU_URAD as int)
}

/// Bhaskara's sine approximation on `[0, PI_URAD]`, scaled by `TRIG_SCALE`.
pub open spec fn spec_half_sine(x: int) -> int {
    let t = x * (PI_URAD - x);
    16 * t * TRIG_SCALE / (5 * PI_URAD * PI_URAD - 4 * t)
}

/// Fixed-point sine of an angle in micro-radians.
pub open spec fn spec_sin_fp(a: int) -> int {
    let n = spec_norm_angle(a);
    if n <= PI_URAD {
        spec_half_sine(n)
    } else {
        -spec_half_sine(n - PI_URAD)
    }
}

/// Fixed-point cosine of an angle in micro-radians.
pub open spec fn spec_cos_fp(a: int) -> int {
    spec_sin_fp(a + HALF_PI_URAD)
}

/// Division by a positive scale that truncates toward zero, as the
/// executable sign-and-magnitude division does.
pub open spec fn spec_div_trunc(n: int, d: int) -> int {
    if n >= 0 {
        n / d
    } else {
        -((-n) / d)
    }
}

/// X component of `v` rotated by `a` micro-radians.
pub open spec fn spec_rot_x(a: int, v: Vec2) -> int {
    spec_div_trunc(v.x * spec_cos_fp(a) - v.y * spec_sin_fp(a), TRIG_SCALE as int)
}

/// Y component of `v` rotated by `a` micro-radians.
pub open spec fn spec_rot_y(a: int, v: Vec2) -> int {
    spec_div_trunc(v.x * spec_sin_fp(a) + v.y * spec_cos_fp(a), TRIG_SCALE as int)
}

/// Reduces a heading to the band `[0, TAU_URAD)`, the form user programs
/// see. Stored rotations themselves are not normalized.
pub fn normalize_heading(h: i64) -> (r: i64)
    ensures
        r == spec_norm_angle(h as int),
        0 <= r < TAU_URAD,
{
    let mut x = h;
    while x < 0
        invariant
            x as int % (TAU_URAD as int) == h as int % (TAU_URAD as int),
        decreases (if x < 0 {
            -(x as int)
        } else {
            0int
        }),
    {
        proof {
            lemma_mod_multiples_vanish(1, x as int, TAU_URAD as int);
        }
        x = x + TAU_URAD;
    }
    while x >= TAU_URAD
        invariant
            0 <= x,
            x as int % (TAU_URAD as int) == h as int % (TAU_URAD as int),
        decreases x,
    {
        proof {
            lemma_mod_multiples_vanish(-1, x - TAU_URAD, TAU_URAD as int);
        }
        x = x - TAU_URAD;
    }
    proof {
        lemma_small_mod(x as nat, TAU_URAD as nat);
    }
    x
}

/// Bhaskara's approximation on the half turn `[0, PI_URAD]`.
fn half_sine(x: i64) -> (r: i64)
    requires
        0 <= x <= PI_URAD,
    ensures
        r == spec_half_sine(x as int),
        0 <= r <= TRIG_SCALE,
{
    proof {
        assert(0 <= (x as int) * (PI_URAD - x as int)) by (nonlinear_arith)
            requires
                0 <= x as int <= PI_URAD,
        ;
        assert((x as int) * (PI_URAD - x as int) <= (PI_URAD as int) * (PI_URAD as int))
            by (nonlinear_arith)
            requires
                0 <= x as int <= PI_URAD,
        ;
        assert(4 * ((x as int) * (PI_URAD - x as int)) <= (PI_URAD as int) * (PI_URAD as int))
            by (nonlinear_arith)
            requires
                0 <= x as int <= PI_URAD,
        ;
    }
    let xu = x as u128;
    let pu = PI_URAD as u128;
    let su = TRIG_SCALE as u128;
    let t = xu * (pu - xu);
    let num: u128 = 16 * t * su;
    let den: u128 = 5 * pu * pu - 4 * t;
    let q = num / den;
    proof {
        let ti = (x as int) * (PI_URAD - x as int);
        let numi: int = 16 * ti * (TRIG_SCALE as int);
        let deni: int = 5 * (PI_URAD as int) * (PI_URAD as int) - 4 * ti;
        assert(16 * ti * (TRIG_SCALE as int) <= deni * (TRIG_SCALE as int)) by (nonlinear_arith)
            requires
                16 * ti <= deni,
        ;
        lemma_div_is_ordered(numi, deni * (TRIG_SCALE as int), deni);
        lemma_div_multiples_vanish(TRIG_SCALE as int, deni);
        lemma_div_pos_is_pos(numi, deni);
    }
    q as i64
}

/// Fixed-point sine; the result is scaled by `TRIG_SCALE`.
pub fn sin_fp(a: i64) -> (r: i64)
    requires
        -MAX_ANGLE_ARG - 8_000_000 <= a <= MAX_ANGLE_ARG + 8_000_000,
    ensures
        r == spec_sin_fp(a as int),
        -TRIG_SCALE <= r <= TRIG_SCALE,
{
    let n = normalize_heading(a);
    if n <= PI_URAD {
        half_sine(n)
    } else {
        -half_sine(n - PI_URAD)
    }
}

/// Fixed-point cosine; the result is scaled by `TRIG_SCALE`.
pub fn cos_fp(a: i64) -> (r: i64)
    requires
        -MAX_ANGLE_ARG <= a <= MAX_ANGLE_ARG,
    ensures
        r == spec_cos_fp(a as int),
        -TRIG_SCALE <= r <= TRIG_SCALE,
{
    sin_fp(a + HALF_PI_URAD)
}

/// Truncating division of a scaled product by `TRIG_SCALE`.
fn div_scale(n: i128) -> (r: i64)
    requires
        -0x4000_0000_0000_0000_0000_0000 <= n <= 0x4000_0000_0000_0000_0000_0000,
        spec_div_trunc(n as int, TRIG_SCALE as int) <= i64::MAX,
        -i64::MAX <= spec_div_trunc(n as int, TRIG_SCALE as int),
    ensures
        r == spec_div_trunc(n as int, TRIG_SCALE as int),
{
    if n >= 0 {
        let q = (n as u128) / (TRIG_SCALE as u128);
        q as i64
    } else {
        let q = ((-n) as u128) / (TRIG_SCALE as u128);
        proof {
            lemma_div_pos_is_pos((-(n as int)), TRIG_SCALE as int);
        }
        -(q as i64)
    }
}

/// Bound on a product against a symmetric band: `|v| <= m` and `|c| <= s`
/// give `|v * c| <= m * s`.
proof fn lemma_mul_abs_bound(v: int, c: int, m: int, s: int)
    by (nonlinear_arith)
    requires
        -m <= v <= m,
        -s <= c <= s,
        0 <= m,
        0 <= s,
    ensures
        -(m * s) <= v * c <= m * s,
{
}

/// Truncating scale division keeps a symmetric bound: `|n| <= b * S`
/// gives `|n / S| <= b`.
proof fn lemma_div_scale_bound(n: int, b: int)
    requires
        0 <= b,
        -(b * (TRIG_SCALE as int)) <= n <= b * (TRIG_SCALE as int),
    ensures
        -b <= spec_div_trunc(n, TRIG_SCALE as int) <= b,
{
    let s = TRIG_SCALE as int;
    lemma_div_multiples_vanish(b, s);
    if n >= 0 {
        lemma_div_is_ordered(n, b * s, s);
        lemma_div_pos_is_pos(n, s);
        assert(b * s == s * b);
    } else {
        lemma_div_is_ordered(-n, b * s, s);
        lemma_div_pos_is_pos(-n, s);
        assert(b * s == s * b);
    }
}

/// Rotates `v` by `a` micro-radians.
pub fn rot_vec(a: i64, v: Vec2) -> (r: Vec2)
    requires
        -MAX_ANGLE_ARG <= a <= MAX_ANGLE_ARG,
        -COORD_LIMIT <= v.x <= COORD_LIMIT,
        -COORD_LIMIT <= v.y <= COORD_LIMIT,
    ensures
        r.x == spec_rot_x(a as int, v),
        r.y == spec_rot_y(a as int, v),
        -(abs_i(v.x as int) + abs_i(v.y as int)) <= r.x <= abs_i(v.x as int) + abs_i(v.y as int),
        -(abs_i(v.x as int) + abs_i(v.y as int)) <= r.y <= abs_i(v.x as int) + abs_i(v.y as int),
{
    let c = cos_fp(a);
    let s = sin_fp(a);
    let xa = if v.x >= 0 {
        v.x
    } else {
        -v.x
    };
    let ya = if v.y >= 0 {
        v.y
    } else {
        -v.y
    };
    proof {
        lemma_mul_abs_bound(v.x as int, c as int, xa as int, TRIG_SCALE as int);
        lemma_mul_abs_bound(v.y as int, s as int, ya as int, TRIG_SCALE as int);
        lemma_mul_abs_bound(v.x as int, s as int, xa as int, TRIG_SCALE as int);
        lemma_mul_abs_bound(v.y as int, c as int, ya as int, TRIG_SCALE as int);
        assert((xa + ya) * (TRIG_SCALE as int) == xa * (TRIG_SCALE as int) + ya * (
        TRIG_SCALE as int)) by (nonlinear_arith);
    }
    let nx = (v.x as i128) * (c as i128) - (v.y as i128) * (s as i128);
    let ny = (v.x as i128) * (s as i128) + (v.y as i128) * (c as i128);
    proof {
        lemma_div_scale_bound(nx as int, (xa + ya) as int);
        lemma_div_scale_bound(ny as int, (xa + ya) as int);
    }
    Vec2 { x: div_scale(nx), y: div_scale(ny) }
}

} // verus!
