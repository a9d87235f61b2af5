//! Fixed-point numbers and the trigonometric kernel the sampler is built on.
//!
//! A real value `v` is held as the integer `v * MICRO`, rounded; an angle is
//! held in micro-radians. Sine is computed by reducing the angle to
//! `[0, pi/4]` and evaluating there the Taylor polynomial of sine (up to the
//! ninth power) or of cosine (up to the eighth). Both polynomials are exact at
//! zero, so sine is exactly `0` at multiples of pi and exactly `MICRO` at
//! pi/2, and every value lies in `[-MICRO, MICRO]`.
use vstd::prelude::*;
use vstd::arithmetic::div_mod::{lemma_div_is_ordered, lemma_div_multiples_vanish};

verus! {

/// One real unit, in fixed-point steps.
pub const MICRO: i64 = 1_000_000;

/// Half of pi, in micro-radians.
pub const HALF_PI_MICRO: i64 = 1_570_796;

/// A quarter of pi, in micro-radians.
pub const QUARTER_PI_MICRO: i64 = 785_398;

/// Pi, in micro-radians: two quarter turns, so that the quadrants tile it.
pub const PI_MICRO: i64 = 3_141_592;

/// A full turn, in micro-radians: four quarter turns.
pub const TWO_PI_MICRO: i64 = 6_283_184;

/// Largest angle magnitude, in micro-radians, that `sine` and `cosine` accept.
pub const ANGLE_LIMIT: i64 = 1_000_000_000_000_000;

/// The integer quotient `n / d` rounded toward zero, as machine division does.
pub open spec fn quot(n: int, d: int) -> int {
    let q = (if n >= 0 { n } else { -n }) / (if d >= 0 { d } else { -d });
    if (n >= 0) == (d > 0) { q } else { -q }
}

/// Taylor polynomial of sine up to `x^9`, for `0 <= x <= QUARTER_PI_MICRO`,
/// each term derived from the previous one with truncating division.
pub open spec fn taylor_sine(x: int) -> int {
    let x2 = x * x / MICRO as int;
    let t3 = x * x2 / MICRO as int / 6;
    let t5 = t3 * x2 / MICRO as int / 20;
    let t7 = t5 * x2 / MICRO as int / 42;
    let t9 = t7 * x2 / MICRO as int / 72;
    x - t3 + t5 - t7 + t9
}

/// Taylor polynomial of cosine up to `x^8`, for `0 <= x <= QUARTER_PI_MICRO`,
/// each term derived from the previous one with truncating division.
pub open spec fn taylor_cosine(x: int) -> int {
    let x2 = x * x / MICRO as int;
    let c2 = x2 / 2;
    let c4 = c2 * x2 / MICRO as int / 12;
    let c6 = c4 * x2 / MICRO as int / 30;
    let c8 = c6 * x2 / MICRO as int / 56;
    MICRO - c2 + c4 - c6 + c8
}

/// Sine of an angle in `[0, HALF_PI_MICRO]`: the sine polynomial up to a
/// quarter of pi, the cosine polynomial of the complement beyond it.
pub open spec fn sine_quadrant(x: int) -> int {
    if x <= QUARTER_PI_MICRO { taylor_sine(x) } else { taylor_cosine(HALF_PI_MICRO - x) }
}

/// Sine of an angle in `[0, PI_MICRO)`, folded into the first quadrant.
pub open spec fn sine_upper(r: int) -> int {
    if r > HALF_PI_MICRO { sine_quadrant(PI_MICRO - r) } else { sine_quadrant(r) }
}

/// Sine of an angle in `[0, TWO_PI_MICRO)`.
pub open spec fn sine_turn(r: int) -> int {
    if r >= PI_MICRO { -sine_upper(r - PI_MICRO) } else { sine_upper(r) }
}

/// Fixed-point sine of the angle `a` (micro-radians), in micro-units.
pub open spec fn sine_of(a: int) -> int {
    if a >= 0 { sine_turn(a % TWO_PI_MICRO as int) } else { -sine_turn((-a) % TWO_PI_MICRO as int) }
}

/// Fixed-point cosine: the sine a quarter turn further on.
pub open spec fn cosine_of(a: int) -> int {
    sine_of(a + HALF_PI_MICRO)
}

proof fn lemma_term_shrinks(t: int, x2: int, k: int)
    requires
        0 <= t,
        0 <= x2 < 6 * MICRO,
        6 <= k,
    ensures
        0 <= t * x2 / MICRO as int / k <= t,
{
    let m = MICRO as int;
    assert(0 <= t * x2 <= t * (k * m)) by (nonlinear_arith)
        requires 0 <= t, 0 <= x2 < 6 * m, 6 <= k, m > 0;
    lemma_div_is_ordered(0, t * x2, m);
    assert((t * k) * m == m * (t * k)) by (nonlinear_arith);
    assert(t * (k * m) == (t * k) * m) by (nonlinear_arith);
    lemma_div_is_ordered(t * x2, (t * k) * m, m);
    lemma_div_multiples_vanish(t * k, m);
    lemma_div_is_ordered(0, t * x2 / m, k);
    lemma_div_is_ordered(t * x2 / m, t * k, k);
    assert(k * t == t * k) by (nonlinear_arith);
    lemma_div_multiples_vanish(t, k);
}

/// The sine polynomial on `[0, QUARTER_PI_MICRO]`.
fn taylor_sin(x: i64) -> (r: i64)
    requires
        0 <= x <= QUARTER_PI_MICRO,
    ensures
        r == taylor_sine(x as int),
        0 <= r <= x,
{
    let ghost m = MICRO as int;
    assert(0 <= x * x <= QUARTER_PI_MICRO * QUARTER_PI_MICRO) by (nonlinear_arith)
        requires 0 <= x <= QUARTER_PI_MICRO;
    let x2 = x * x / MICRO;
    proof {
        lemma_div_is_ordered(x * x, QUARTER_PI_MICRO * QUARTER_PI_MICRO, m);
        lemma_div_is_ordered(0, x * x, m);
        assert(x2 < MICRO);
        lemma_term_shrinks(x as int, x2 as int, 6);
    }
    assert(x * x2 <= QUARTER_PI_MICRO * MICRO) by (nonlinear_arith)
        requires 0 <= x <= QUARTER_PI_MICRO, 0 <= x2 < MICRO;
    let t3 = x * x2 / MICRO / 6;
    proof {
        lemma_term_shrinks(t3 as int, x2 as int, 20);
    }
    assert(t3 * x2 <= QUARTER_PI_MICRO * MICRO) by (nonlinear_arith)
        requires 0 <= t3 <= QUARTER_PI_MICRO, 0 <= x2 < MICRO;
    let t5 = t3 * x2 / MICRO / 20;
    proof {
        lemma_term_shrinks(t5 as int, x2 as int, 42);
    }
    assert(t5 * x2 <= QUARTER_PI_MICRO * MICRO) by (nonlinear_arith)
        requires 0 <= t5 <= QUARTER_PI_MICRO, 0 <= x2 < MICRO;
    let t7 = t5 * x2 / MICRO / 42;
    proof {
        lemma_term_shrinks(t7 as int, x2 as int, 72);
    }
    assert(t7 * x2 <= QUARTER_PI_MICRO * MICRO) by (nonlinear_arith)
        requires 0 <= t7 <= QUARTER_PI_MICRO, 0 <= x2 < MICRO;
    let t9 = t7 * x2 / MICRO / 72;
    x - t3 + t5 - t7 + t9
}

/// The cosine polynomial on `[0, QUARTER_PI_MICRO]`.
fn taylor_cos(x: i64) -> (r: i64)
    requires
        0 <= x <= QUARTER_PI_MICRO,
    ensures
        r == taylor_cosine(x as int),
        0 <= r <= MICRO,
{
    let ghost m = MICRO as int;
    assert(0 <= x * x <= QUARTER_PI_MICRO * QUARTER_PI_MICRO) by (nonlinear_arith)
        requires 0 <= x <= QUARTER_PI_MICRO;
    let x2 = x * x / MICRO;
    proof {
        lemma_div_is_ordered(x * x, QUARTER_PI_MICRO * QUARTER_PI_MICRO, m);
        lemma_div_is_ordered(0, x * x, m);
        assert(x2 < MICRO);
    }
    let c2 = x2 / 2;
    proof {
        lemma_term_shrinks(c2 as int, x2 as int, 12);
    }
    assert(c2 * x2 <= MICRO * MICRO) by (nonlinear_arith)
        requires 0 <= c2 <= MICRO, 0 <= x2 < MICRO;
    let c4 = c2 * x2 / MICRO / 12;
    proof {
        lemma_term_shrinks(c4 as int, x2 as int, 30);
    }
    assert(c4 * x2 <= MICRO * MICRO) by (nonlinear_arith)
        requires 0 <= c4 <= MICRO, 0 <= x2 < MICRO;
    let c6 = c4 * x2 / MICRO / 30;
    proof {
        lemma_term_shrinks(c6 as int, x2 as int, 56);
    }
    assert(c6 * x2 <= MICRO * MICRO) by (nonlinear_arith)
        requires 0 <= c6 <= MICRO, 0 <= x2 < MICRO;
    let c8 = c6 * x2 / MICRO / 56;
    MICRO - c2 + c4 - c6 + c8
}

/// Sine of an angle in `[0, HALF_PI_MICRO]`.
fn sine_in_quadrant(x: i64) -> (s: i64)
    requires
        0 <= x <= HALF_PI_MICRO,
    ensures
        s == sine_quadrant(x as int),
        0 <= s <= MICRO,
{
    if x <= QUARTER_PI_MICRO {
        taylor_sin(x)
    } else {
        taylor_cos(HALF_PI_MICRO - x)
    }
}

/// Sine of an angle in `[0, TWO_PI_MICRO)`.
fn sine_in_turn(r: i64) -> (s: i64)
    requires
        0 <= r < TWO_PI_MICRO,
    ensures
        s == sine_turn(r as int),
        -MICRO <= s <= MICRO,
{
    let (upper, negate) = if r >= PI_MICRO { (r - PI_MICRO, true) } else { (r, false) };
    let folded = if upper > HALF_PI_MICRO { PI_MICRO - upper } else { upper };
    let v = sine_in_quadrant(folded);
    if negate { -v } else { v }
}

/// Fixed-point sine of `a` micro-radians, in micro-units.
pub fn sine(a: i64) -> (s: i64)
    requires
        -ANGLE_LIMIT <= a <= ANGLE_LIMIT,
    ensures
        s == sine_of(a as int),
        -MICRO <= s <= MICRO,
{
    if a >= 0 {
        sine_in_turn(a % TWO_PI_MICRO)
    } else {
        let v = sine_in_turn((-a) % TWO_PI_MICRO);
        -v
    }
}

/// Fixed-point cosine of `a` micro-radians, in micro-units.
pub fn cosine(a: i64) -> (c: i64)
    requires
        -ANGLE_LIMIT <= a <= ANGLE_LIMIT - HALF_PI_MICRO,
    ensures
        c == cosine_of(a as int),
        -MICRO <= c <= MICRO,
{
    sine(a + HALF_PI_MICRO)
}

/// The kernel is exact where sine and cosine take the values 0 and 1:
/// sine is `0` at `0` and at pi and `MICRO` at pi/2; cosine is `MICRO` at `0`
/// and `0` at pi/2.
pub proof fn lemma_exact_points()
    ensures
        sine_of(0) == 0,
        sine_of(HALF_PI_MICRO as int) == MICRO,
        sine_of(PI_MICRO as int) == 0,
        cosine_of(0) == MICRO,
        cosine_of(HALF_PI_MICRO as int) == 0,
{
    assert(0int * 0 / MICRO as int == 0);
    assert(taylor_sine(0) == 0);
    assert(taylor_cosine(0) == MICRO);
    assert(HALF_PI_MICRO as int % TWO_PI_MICRO as int == HALF_PI_MICRO);
    assert(PI_MICRO as int % TWO_PI_MICRO as int == PI_MICRO);
    assert(0int % TWO_PI_MICRO as int == 0);
    assert((HALF_PI_MICRO + HALF_PI_MICRO) as int % TWO_PI_MICRO as int == HALF_PI_MICRO
        + HALF_PI_MICRO);
}

} // verus!
