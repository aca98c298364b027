//! Fixed-point arithmetic for the simulation.
//!
//! Every quantity in the engine is an `i64` in micro-units: lengths in
//! micro-pixels, durations in micro-seconds, velocities in micro-pixels per
//! second, angles in micro-radians. `MICROS` is the common scale factor.
//!
//! Integrated quantities saturate at `COORD_LIMIT`, far beyond any playfield,
//! so the update functions are total and their contracts exact.
use vstd::prelude::*;

verus! {

/// The common fixed-point scale: one unit is a millionth.
pub const MICROS: i64 = 1_000_000;

/// Saturation bound for coordinates and times: 2^61 micro-units.
/// Sums and differences of two saturated values still fit in an `i64`.
pub const COORD_LIMIT: i64 = 0x2000_0000_0000_0000;

/// Clamp a mathematical integer into `[-COORD_LIMIT, COORD_LIMIT]`.
pub open spec fn sat(v: int) -> int {
    if v > COORD_LIMIT {
        COORD_LIMIT as int
    } else if v < -COORD_LIMIT {
        -COORD_LIMIT as int
    } else {
        v
    }
}

/// Truncating division (the semantics of `/` on machine integers),
/// meaningful for `b != 0`.
pub open spec fn tdiv(a: int, b: int) -> int {
    if a >= 0 && b >= 0 {
        a / b
    } else if a < 0 && b < 0 {
        (-a) / (-b)
    } else if a < 0 {
        -((-a) / b)
    } else {
        -(a / (-b))
    }
}

/// The product of two micro-scaled values, scaled back down.
pub open spec fn mul_fix(a: int, b: int) -> int {
    tdiv(a * b, MICROS as int)
}

/// Pi in micro-radians.
pub const PI_MICRO: i64 = 3_141_593;

/// A full turn in micro-radians.
pub const TWO_PI_MICRO: i64 = 6_283_185;

/// The parabolic sine approximation on the half period `[0, PI_MICRO]`,
/// scaled by `MICROS`: `4 x (pi - x) / pi^2`.
pub open spec fn sine_half(x: int) -> int {
    4 * x * (PI_MICRO - x) * MICROS / (PI_MICRO as int * PI_MICRO as int)
}

/// Sine of an angle in micro-radians, scaled by `MICROS`: the angle is
/// reduced to one turn and the second half period is the negated first.
pub open spec fn sine_unit(phase: int) -> int {
    let r = phase % (TWO_PI_MICRO as int);
    if r <= PI_MICRO {
        sine_half(r)
    } else {
        -sine_half(r - PI_MICRO)
    }
}

/// Saturating addition of two in-range coordinates.
pub fn sat_add(a: i64, b: i64) -> (r: i64)
    requires
        -COORD_LIMIT <= a <= COORD_LIMIT,
        -COORD_LIMIT <= b <= COORD_LIMIT,
    ensures
        r as int == sat(a + b),
{
    let s = a + b;
    if s > COORD_LIMIT {
        COORD_LIMIT
    } else if s < -COORD_LIMIT {
        -COORD_LIMIT
    } else {
        s
    }
}

/// Clamp an `i128` intermediate into the coordinate range.
fn clamp_coord(v: i128) -> (r: i64)
    ensures
        r as int == sat(v as int),
{
    if v > COORD_LIMIT as i128 {
        COORD_LIMIT
    } else if v < -(COORD_LIMIT as i128) {
        -COORD_LIMIT
    } else {
        v as i64
    }
}

/// `sat(mul_fix(a, b))` on machine integers.
pub fn mul_fix_sat(a: i64, b: i64) -> (r: i64)
    requires
        -COORD_LIMIT <= a <= COORD_LIMIT,
        -COORD_LIMIT <= b <= COORD_LIMIT,
    ensures
        r as int == sat(mul_fix(a as int, b as int)),
{
    proof {
        assert((a as int) * (b as int) <= COORD_LIMIT as int * COORD_LIMIT as int && (a as int) * (
        b as int) >= -(COORD_LIMIT as int * COORD_LIMIT as int)) by (nonlinear_arith)
            requires
                -COORD_LIMIT <= a <= COORD_LIMIT,
                -COORD_LIMIT <= b <= COORD_LIMIT,
        ;
    }
    let p: i128 = (a as i128) * (b as i128);
    let q: i128 = p / (MICROS as i128);
    clamp_coord(q)
}

/// `sat(tdiv(t * MICROS, b))`: the micro-scaled ratio of two quantities.
pub fn ratio_sat(t: i64, b: i64) -> (r: i64)
    requires
        -COORD_LIMIT <= t <= COORD_LIMIT,
        1 <= b <= COORD_LIMIT,
    ensures
        r as int == sat(tdiv(t * MICROS, b as int)),
{
    proof {
        assert((t as int) * (MICROS as int) <= COORD_LIMIT as int * MICROS as int && (t as int) * (
        MICROS as int) >= -(COORD_LIMIT as int * MICROS as int)) by (nonlinear_arith)
            requires
                -COORD_LIMIT <= t <= COORD_LIMIT,
        ;
    }
    let p: i128 = (t as i128) * (MICROS as i128);
    let q: i128 = p / (b as i128);
    clamp_coord(q)
}

/// The parabolic half-period sine on machine integers.
fn sine_half_exec(x: i64) -> (s: i64)
    requires
        0 <= x <= PI_MICRO,
    ensures
        s as int == sine_half(x as int),
        0 <= s <= MICROS,
{
    proof {
        let xi = x as int;
        let pi = PI_MICRO as int;
        assert(0 <= 4 * xi * (pi - xi) && 4 * xi * (pi - xi) <= pi * pi) by (nonlinear_arith)
            requires
                0 <= xi <= pi,
        ;
        assert((pi * pi) * MICROS == pi * pi * MICROS) by (nonlinear_arith);
        vstd::arithmetic::div_mod::lemma_div_is_ordered(
            4 * xi * (pi - xi) * MICROS,
            pi * pi * MICROS,
            pi * pi,
        );
        vstd::arithmetic::div_mod::lemma_div_multiples_vanish(MICROS as int, pi * pi);
        vstd::arithmetic::div_mod::lemma_div_pos_is_pos(4 * xi * (pi - xi) * MICROS, pi * pi);
    }
    let num: i128 = 4 * (x as i128) * ((PI_MICRO - x) as i128) * (MICROS as i128);
    let den: i128 = (PI_MICRO as i128) * (PI_MICRO as i128);
    (num / den) as i64
}

/// Sine of an angle in micro-radians, scaled by `MICROS`.
pub fn sine_scaled(phase: i64) -> (s: i64)
    requires
        -COORD_LIMIT <= phase <= COORD_LIMIT,
    ensures
        s as int == sine_unit(phase as int),
        -MICROS <= s <= MICROS,
{
    let r = mod_floor(phase, TWO_PI_MICRO);
    if r <= PI_MICRO {
        sine_half_exec(r)
    } else {
        -sine_half_exec(r - PI_MICRO)
    }
}

/// A ratio of non-negative quantities is non-negative.
pub proof fn lemma_nonneg_ratio(t: int, b: int)
    requires
        t >= 0,
        b >= 1,
    ensures
        sat(tdiv(t * MICROS, b)) >= 0,
{
    vstd::arithmetic::div_mod::lemma_div_pos_is_pos(t * MICROS, b);
}

/// A scaled product of non-negative factors is non-negative.
pub proof fn lemma_nonneg_mul_fix(a: int, b: int)
    requires
        a >= 0,
        b >= 0,
    ensures
        sat(mul_fix(a, b)) >= 0,
{
    assert(a * b >= 0) by (nonlinear_arith)
        requires
            a >= 0,
            b >= 0,
    ;
    vstd::arithmetic::div_mod::lemma_div_pos_is_pos(a * b, MICROS as int);
}

/// The scaled sine stays within one scaled unit.
pub proof fn lemma_sine_unit_bounds(phase: int)
    ensures
        -MICROS <= sine_unit(phase) <= MICROS,
{
    let r = phase % (TWO_PI_MICRO as int);
    vstd::arithmetic::div_mod::lemma_mod_division_less_than_divisor(phase, TWO_PI_MICRO as int);
    let x = if r <= PI_MICRO {
        r
    } else {
        r - PI_MICRO
    };
    let pi = PI_MICRO as int;
    assert(0 <= 4 * x * (pi - x) && 4 * x * (pi - x) <= pi * pi) by (nonlinear_arith)
        requires
            0 <= x <= pi,
    ;
    assert((pi * pi) * MICROS == pi * pi * MICROS) by (nonlinear_arith);
    vstd::arithmetic::div_mod::lemma_div_is_ordered(4 * x * (pi - x) * MICROS, pi * pi * MICROS, pi
        * pi);
    vstd::arithmetic::div_mod::lemma_div_multiples_vanish(MICROS as int, pi * pi);
    vstd::arithmetic::div_mod::lemma_div_pos_is_pos(4 * x * (pi - x) * MICROS, pi * pi);
}

/// Scaling a micro-scaled factor `s` of at most one unit onto a non-negative
/// amplitude stays within the amplitude.
pub proof fn lemma_mul_fix_amp_bound(amp: int, s: int)
    requires
        0 <= amp,
        -MICROS <= s <= MICROS,
    ensures
        -amp <= mul_fix(amp, s) <= amp,
{
    if s >= 0 {
        assert(0 <= amp * s && amp * s <= amp * MICROS) by (nonlinear_arith)
            requires
                0 <= amp,
                0 <= s <= MICROS,
        ;
        vstd::arithmetic::div_mod::lemma_div_is_ordered(amp * s, amp * MICROS, MICROS as int);
        vstd::arithmetic::div_mod::lemma_div_multiples_vanish(amp, MICROS as int);
        assert(MICROS as int * amp == amp * MICROS) by (nonlinear_arith);
        vstd::arithmetic::div_mod::lemma_div_pos_is_pos(amp * s, MICROS as int);
    } else {
        assert(0 <= amp * (-s) && amp * (-s) <= amp * MICROS && amp * (-s) == -(amp * s))
            by (nonlinear_arith)
            requires
                0 <= amp,
                -MICROS <= s < 0,
        ;
        vstd::arithmetic::div_mod::lemma_div_is_ordered(amp * (-s), amp * MICROS, MICROS as int);
        vstd::arithmetic::div_mod::lemma_div_multiples_vanish(amp, MICROS as int);
        assert(MICROS as int * amp == amp * MICROS) by (nonlinear_arith);
        vstd::arithmetic::div_mod::lemma_div_pos_is_pos(amp * (-s), MICROS as int);
    }
}

/// Euclidean remainder: the representative of `a` modulo `m` in `[0, m)`.
pub fn mod_floor(a: i64, m: i64) -> (r: i64)
    requires
        -COORD_LIMIT <= a <= COORD_LIMIT,
        1 <= m <= COORD_LIMIT,
    ensures
        r as int == (a as int) % (m as int),
{
    let t = a % m;
    if t < 0 {
        proof {
            let n = (-a) as int;
            let mi = m as int;
            vstd::arithmetic::div_mod::lemma_fundamental_div_mod(n, mi);
            let q = n / mi;
            let r = n % mi;
            assert((-q - 1) * mi == -(mi * q) - mi) by (nonlinear_arith);
            vstd::arithmetic::div_mod::lemma_fundamental_div_mod_converse_mod(
                a as int,
                mi,
                -q - 1,
                mi - r,
            );
        }
        t + m
    } else {
        if a < 0 {
            proof {
                let n = (-a) as int;
                let mi = m as int;
                vstd::arithmetic::div_mod::lemma_fundamental_div_mod(n, mi);
                let q = n / mi;
                assert((-q) * mi == -(mi * q)) by (nonlinear_arith);
                vstd::arithmetic::div_mod::lemma_fundamental_div_mod_converse_mod(
                    a as int,
                    mi,
                    -q,
                    0,
                );
            }
        }
        t
    }
}

} // verus!
