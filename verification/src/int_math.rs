//! Small integer math helpers: saturating clamped increments, an integer
//! square root, and a rational approximation of sine and cosine (Bhaskara I)
//! for hue angles in degrees.
use vstd::prelude::*;

verus! {

/// Truncating division (rounds toward zero), the behaviour of Rust's `/`.
pub open spec fn tdiv(a: int, b: int) -> int {
    if a >= 0 {
        a / b
    } else {
        -((-a) / b)
    }
}

/// Euclidean remainder folded to the sign of the dividend, the behaviour of
/// Rust's `%`.
pub open spec fn tmod(a: int, b: int) -> int {
    a - b * tdiv(a, b)
}

/// Truncating division on `i32`, with the exec `/` semantics stated exactly.
pub(crate) fn div_trunc(x: i32, d: i32) -> (r: i32)
    requires
        d > 0,
    ensures
        r == tdiv(x as int, d as int),
{
    proof {
        if x >= 0 {
            vstd::arithmetic::div_mod::lemma_div_pos_is_pos(x as int, d as int);
            vstd::arithmetic::div_mod::lemma_div_nonincreasing(x as int, d as int);
        } else {
            vstd::arithmetic::div_mod::lemma_div_pos_is_pos(-(x as int), d as int);
            vstd::arithmetic::div_mod::lemma_div_nonincreasing(-(x as int), d as int);
        }
    }
    match x.checked_div(d) {
        Some(v) => v,
        None => 0,
    }
}

/// Flooring division on `i32` (the arithmetic right shift when `d` is a power
/// of two); in specifications `/` is Euclidean, which floors for `d > 0`.
pub(crate) fn div_floor(x: i32, d: i32) -> (r: i32)
    requires
        d > 0,
    ensures
        r == x as int / d as int,
{
    proof {
        lemma_div_floor_bounds(x as int, d as int);
    }
    match x.checked_div_euclid(d) {
        Some(v) => v,
        None => 0,
    }
}

/// For a positive divisor the Euclidean quotient lies between the dividend
/// and zero.
proof fn lemma_div_floor_bounds(x: int, d: int)
    requires
        d > 0,
    ensures
        x >= 0 ==> 0 <= x / d <= x,
        x < 0 ==> x <= x / d <= 0,
{
    if x >= 0 {
        vstd::arithmetic::div_mod::lemma_div_pos_is_pos(x, d);
        vstd::arithmetic::div_mod::lemma_div_nonincreasing(x, d);
    } else {
        vstd::arithmetic::div_mod::lemma_fundamental_div_mod(x, d);
        let q = x / d;
        let r = x % d;
        vstd::arithmetic::div_mod::lemma_mod_bound(x, d);
        assert(x == d * q + r);
        if q > 0 {
            assert(d * q >= q) by (nonlinear_arith)
                requires
                    d >= 1,
                    q > 0,
            ;
            assert(false);
        }
        if q < x {
            assert(d * q + r < x) by (nonlinear_arith)
                requires
                    d >= 1,
                    q <= -1,
                    q < x,
                    0 <= r < d,
                    x < 0,
            ;
        }
    }
}

/// The saturating add of two `i8` values, then clamped into `[min, max]`.
pub open spec fn inc_spec(x: i8, delta: i8, min: i8, max: i8) -> i8 {
    let sum = x + delta;
    let sat: i8 = if sum > 127 {
        127i8
    } else if sum < -128 {
        (-128i8)
    } else {
        sum as i8
    };
    if sat < min {
        min
    } else if sat > max {
        max
    } else {
        sat
    }
}

/// Adjust `*x` by `delta`, saturating, then clamp into `[min, max]`.
pub fn inc(x: &mut i8, delta: i8, min: i8, max: i8)
    ensures
        *final(x) == inc_spec(*old(x), delta, min, max),
{
    let wide: i16 = *x as i16 + delta as i16;
    let new_x: i8 = if wide > 127 {
        127
    } else if wide < -128 {
        -128
    } else {
        wide as i8
    };
    if new_x < min {
        *x = min;
    } else if new_x > max {
        *x = max;
    } else {
        *x = new_x;
    }
}

/// The saturating add of two `i32` values, then clamped into `[min, max]`.
pub open spec fn inc_i32_spec(x: i32, delta: i32, min: i32, max: i32) -> i32 {
    let sum = x + delta;
    let sat: i32 = if sum > i32::MAX {
        i32::MAX
    } else if sum < i32::MIN {
        i32::MIN
    } else {
        sum as i32
    };
    if sat < min {
        min
    } else if sat > max {
        max
    } else {
        sat
    }
}

/// Adjust `*x` by `delta`, saturating, then clamp into `[min, max]`.
pub fn inc_i32(x: &mut i32, delta: i32, min: i32, max: i32)
    ensures
        *final(x) == inc_i32_spec(*old(x), delta, min, max),
{
    let wide: i64 = *x as i64 + delta as i64;
    let new_x: i32 = if wide > i32::MAX as i64 {
        i32::MAX
    } else if wide < i32::MIN as i64 {
        i32::MIN
    } else {
        wide as i32
    };
    if new_x < min {
        *x = min;
    } else if new_x > max {
        *x = max;
    } else {
        *x = new_x;
    }
}

/// Integer square root, rounded up, capped at 127: the least `i` with
/// `i * i >= x`, or 127 when `x` exceeds `127 * 127`.
pub fn sqrt(x: i32) -> (r: i8)
    ensures
        0 <= r <= 127,
        x <= 127 * 127 ==> r * r >= x,
        r > 0 ==> (r - 1) * (r - 1) < x,
        x > 127 * 127 ==> r == 127,
{
    let mut i: i32 = 0;
    while i < 127
        invariant
            0 <= i <= 127,
            forall|j: int| 0 <= j < i ==> #[trigger] (j * j) < x,
        decreases 127 - i,
    {
        proof {
            assert(i * i <= 15876) by (nonlinear_arith)
                requires
                    0 <= i <= 126,
            ;
        }
        if i * i >= x {
            return i as i8;
        }
        i = i + 1;
    }
    127
}

/// Bhaskara I's rational approximation of `multiplier * sin(deg degrees)`.
/// Negative angles use odd symmetry, angles are folded modulo 360, and
/// angles above 180 use the second half-wave's sign flip.
pub open spec fn sin_spec(deg: int, multiplier: int) -> int
    decreases (if deg < 0 { 2int } else if tmod(deg, 360) > 180 { 1int } else { 0int }),
{
    if deg < 0 {
        -sin_spec(-deg, multiplier)
    } else {
        let d = tmod(deg, 360);
        if d > 180 {
            -sin_spec(360 - d, multiplier)
        } else {
            tdiv(multiplier * 4 * d * (180 - d), 40500 - d * (180 - d))
        }
    }
}

/// Folding by 360 keeps the angle in `[0, 360)` for nonnegative input.
proof fn lemma_tmod_range(a: int, b: int)
    requires
        a >= 0,
        b > 0,
    ensures
        0 <= tmod(a, b) < b,
        tmod(a, b) == a % b,
{
    vstd::arithmetic::div_mod::lemma_fundamental_div_mod(a, b);
    vstd::arithmetic::div_mod::lemma_mod_bound(a, b);
}

/// `d * (180 - d) <= 8100` for every integer `d` (the product peaks at 90).
proof fn lemma_hump_bound(d: int)
    ensures
        d * (180 - d) <= 8100,
        0 <= d <= 180 ==> d * (180 - d) >= 0,
    decreases 0int,
{
    assert(d * (180 - d) <= 8100) by (nonlinear_arith);
    if 0 <= d <= 180 {
        assert(d * (180 - d) >= 0) by (nonlinear_arith)
            requires
                0 <= d <= 180,
        ;
    }
}

/// Magnitude of an integer.
pub open spec fn abs_int(x: int) -> int {
    if x >= 0 {
        x
    } else {
        -x
    }
}

/// The sine approximation never exceeds the multiplier in magnitude.
pub proof fn lemma_sin_bound(deg: int, multiplier: int)
    ensures
        -abs_int(multiplier) <= sin_spec(deg, multiplier) <= abs_int(multiplier),
    decreases (if deg < 0 { 2int } else if tmod(deg, 360) > 180 { 1int } else { 0int }),
{
    if deg < 0 {
        lemma_sin_bound(-deg, multiplier);
    } else {
        let d = tmod(deg, 360);
        lemma_tmod_range(deg, 360);
        if d > 180 {
            lemma_sin_bound(360 - d, multiplier);
        } else {
            let am = abs_int(multiplier);
            let num = multiplier * 4 * d * (180 - d);
            let den = 40500 - d * (180 - d);
            lemma_hump_bound(d);
            assert(den >= 32400);
            assert(-(am * den) <= num && num <= am * den) by (nonlinear_arith)
                requires
                    num == multiplier * 4 * d * (180 - d),
                    den == 40500 - d * (180 - d),
                    0 <= d * (180 - d) <= 8100,
                    multiplier >= 0 ==> am == multiplier,
                    multiplier < 0 ==> am == -multiplier,
            ;
            lemma_tdiv_bound(num, den, am);
        }
    }
}

/// If `-(m * b) <= a <= m * b` then the truncating quotient `a / b` stays in
/// `[-m, m]`.
pub(crate) proof fn lemma_tdiv_bound(a: int, b: int, m: int)
    requires
        b > 0,
        m >= 0,
        -(m * b) <= a,
        a <= m * b,
    ensures
        -m <= tdiv(a, b) <= m,
{
    if a >= 0 {
        vstd::arithmetic::div_mod::lemma_div_pos_is_pos(a, b);
        vstd::arithmetic::div_mod::lemma_div_is_ordered(a, m * b, b);
        vstd::arithmetic::div_mod::lemma_div_multiples_vanish(m, b);
        assert(b * m == m * b) by (nonlinear_arith);
    } else {
        vstd::arithmetic::div_mod::lemma_div_pos_is_pos(-a, b);
        vstd::arithmetic::div_mod::lemma_div_is_ordered(-a, m * b, b);
        vstd::arithmetic::div_mod::lemma_div_multiples_vanish(m, b);
        assert(b * m == m * b) by (nonlinear_arith);
    }
}

/// Folding an angle into `[0, 360)` does not change the approximated sine:
/// the spec's own negative-angle and second-half-wave rules agree with the
/// Euclidean remainder.
proof fn lemma_sin_spec_fold(deg: int, m: int)
    ensures
        sin_spec(deg, m) == sin_spec(deg % 360, m),
{
    reveal_with_fuel(sin_spec, 2);
    let e = deg % 360;
    vstd::arithmetic::div_mod::lemma_mod_bound(deg, 360);
    vstd::arithmetic::div_mod::lemma_small_mod(e as nat, 360nat);
    lemma_tmod_range(e, 360);
    if deg >= 0 {
        lemma_tmod_range(deg, 360);
        assert(tmod(deg, 360) == e);
        if e > 180 {
            lemma_tmod_range(360 - e, 360);
            vstd::arithmetic::div_mod::lemma_small_mod((360 - e) as nat, 360nat);
        }
    } else {
        let md = tmod(-deg, 360);
        lemma_tmod_range(-deg, 360);
        // relate the remainder of -deg to the Euclidean remainder of deg
        vstd::arithmetic::div_mod::lemma_fundamental_div_mod(-deg, 360);
        let q1 = (-deg) / 360;
        if md == 0 {
            vstd::arithmetic::div_mod::lemma_fundamental_div_mod_converse_mod(deg, 360, -q1, 0);
            assert((-q1) * 360 + 0 == -(q1 * 360)) by (nonlinear_arith);
            assert(e == 0);
            assert(sin_spec(deg, m) == -sin_spec(-deg, m));
            assert(sin_spec(-deg, m) == tdiv(m * 4 * 0 * (180 - 0), 40500));
            assert(tdiv(m * 4 * 0 * (180 - 0), 40500) == 0) by {
                assert(m * 4 * 0 * (180 - 0) == 0) by (nonlinear_arith);
            }
            assert(sin_spec(e, m) == tdiv(m * 4 * 0 * (180 - 0), 40500));
        } else {
            vstd::arithmetic::div_mod::lemma_fundamental_div_mod_converse_mod(
                deg,
                360,
                -q1 - 1,
                360 - md,
            );
            assert((-q1 - 1) * 360 + (360 - md) == -(q1 * 360 + md)) by (nonlinear_arith);
            assert(e == 360 - md);
            if md > 180 {
                // both sides reduce to the first half-wave at 360 - md
                assert(sin_spec(-deg, m) == -sin_spec(360 - md, m));
                lemma_tmod_range(360 - md, 360);
                vstd::arithmetic::div_mod::lemma_small_mod((360 - md) as nat, 360nat);
            } else if md == 180 {
                assert(sin_spec(-deg, m) == tdiv(m * 4 * 180 * (180 - 180), 40500 - 180 * (180
                    - 180)));
                assert(m * 4 * 180 * (180 - 180) == 0) by (nonlinear_arith);
                assert(180 * (180 - 180) == 0) by (nonlinear_arith);
                assert(sin_spec(e, m) == tdiv(m * 4 * 180 * (180 - 180), 40500 - 180 * (180
                    - 180)));
            } else {
                // e lands in the second half-wave and flips back to md
                assert(sin_spec(e, m) == -sin_spec(360 - e, m));
                lemma_tmod_range(360 - e, 360);
                vstd::arithmetic::div_mod::lemma_small_mod((360 - e) as nat, 360nat);
            }
        }
    }
}

/// The first half-wave of the approximation, for angles in `[0, 180]`.
fn bhaskara_half(deg: isize, multiplier: isize) -> (r: isize)
    requires
        0 <= deg <= 180,
        -66000 <= multiplier <= 66000,
    ensures
        r == tdiv(
            multiplier as int * 4 * deg as int * (180 - deg as int),
            40500 - deg as int * (180 - deg as int),
        ),
        -abs_int(multiplier as int) <= r <= abs_int(multiplier as int),
{
    proof {
        lemma_hump_bound(deg as int);
        assert(0 <= deg as int * (180 - deg as int) <= 8100) by (nonlinear_arith)
            requires
                0 <= deg as int <= 180,
        ;
        assert(-47520000 <= multiplier as int * 4 * deg as int <= 47520000 && -2138400000
            <= multiplier as int * 4 * deg as int * (180 - deg as int) <= 2138400000)
            by (nonlinear_arith)
            requires
                -66000 <= multiplier as int <= 66000,
                0 <= deg as int <= 180,
        ;
        let am = abs_int(multiplier as int);
        let num = multiplier as int * 4 * deg as int * (180 - deg as int);
        let den = 40500 - deg as int * (180 - deg as int);
        assert(-(am * den) <= num && num <= am * den) by (nonlinear_arith)
            requires
                num == multiplier as int * 4 * deg as int * (180 - deg as int),
                den == 40500 - deg as int * (180 - deg as int),
                0 <= deg as int * (180 - deg as int) <= 8100,
                multiplier >= 0 ==> am == multiplier as int,
                multiplier < 0 ==> am == -(multiplier as int),
        ;
        lemma_tdiv_bound(num, den, am);
    }
    let num: isize = multiplier * 4 * deg * (180 - deg);
    let den: isize = 40500 - deg * (180 - deg);
    div_trunc_isize(num, den)
}

/// `multiplier * sin(deg degrees)`, by Bhaskara I's approximation: the angle
/// is folded into `[0, 360)` and the second half-wave mirrors the first with
/// its sign flipped.
pub fn sin(deg: isize, multiplier: isize) -> (r: isize)
    requires
        -66000 <= multiplier <= 66000,
    ensures
        r == sin_spec(deg as int, multiplier as int),
        -abs_int(multiplier as int) <= r <= abs_int(multiplier as int),
{
    proof {
        lemma_sin_spec_fold(deg as int, multiplier as int);
    }
    let d = rem_euclid_360(deg);
    proof {
        reveal_with_fuel(sin_spec, 3);
        lemma_tmod_range(d as int, 360);
        vstd::arithmetic::div_mod::lemma_small_mod(d as nat, 360nat);
        if d as int > 180 {
            lemma_tmod_range(360 - d as int, 360);
            vstd::arithmetic::div_mod::lemma_small_mod((360 - d as int) as nat, 360nat);
        }
    }
    if d > 180 {
        -bhaskara_half(360 - d, multiplier)
    } else {
        bhaskara_half(d, multiplier)
    }
}

/// Truncating division on `isize`, with the exec `/` semantics stated
/// exactly.
fn div_trunc_isize(x: isize, d: isize) -> (r: isize)
    requires
        d > 0,
    ensures
        r == tdiv(x as int, d as int),
{
    proof {
        if x >= 0 {
            vstd::arithmetic::div_mod::lemma_div_pos_is_pos(x as int, d as int);
            vstd::arithmetic::div_mod::lemma_div_nonincreasing(x as int, d as int);
        } else {
            vstd::arithmetic::div_mod::lemma_div_pos_is_pos(-(x as int), d as int);
            vstd::arithmetic::div_mod::lemma_div_nonincreasing(-(x as int), d as int);
        }
    }
    match x.checked_div(d) {
        Some(v) => v,
        None => 0,
    }
}

/// `multiplier * cos(deg degrees)`: the sine of the complementary angle,
/// computed on the folded angle so any input is accepted.
pub fn cos(deg: isize, multiplier: isize) -> (r: isize)
    requires
        -66000 <= multiplier <= 66000,
    ensures
        r == sin_spec(90 - deg as int, multiplier as int),
        -abs_int(multiplier as int) <= r <= abs_int(multiplier as int),
{
    let d = rem_euclid_360(deg);
    proof {
        lemma_sin_spec_fold(90 - deg as int, multiplier as int);
        lemma_sin_spec_fold(90 - d as int, multiplier as int);
        vstd::arithmetic::div_mod::lemma_mod_twice(deg as int, 360);
        vstd::arithmetic::div_mod::lemma_sub_mod_noop(90, deg as int, 360);
        vstd::arithmetic::div_mod::lemma_sub_mod_noop(90, d as int, 360);
    }
    sin(90 - d, multiplier)
}

/// The truncating remainder on `i32`, with the exec `%` semantics stated
/// exactly.
pub(crate) fn rem_trunc(x: i32, d: i32) -> (r: i32)
    requires
        d > 0,
    ensures
        r == tmod(x as int, d as int),
        -d < r < d,
{
    proof {
        lemma_tmod_eq(x as int, d as int);
    }
    match x.checked_rem(d) {
        Some(v) => v,
        None => 0,
    }
}

/// The truncating remainder in terms of the Euclidean one: it keeps the
/// dividend's sign and stays below the divisor in magnitude.
pub(crate) proof fn lemma_tmod_eq(a: int, b: int)
    requires
        b > 0,
    ensures
        tmod(a, b) == (if a >= 0 {
            a % b
        } else {
            -((-a) % b)
        }),
        -b < tmod(a, b) < b,
{
    if a >= 0 {
        vstd::arithmetic::div_mod::lemma_fundamental_div_mod(a, b);
        vstd::arithmetic::div_mod::lemma_mod_bound(a, b);
    } else {
        vstd::arithmetic::div_mod::lemma_fundamental_div_mod(-a, b);
        vstd::arithmetic::div_mod::lemma_mod_bound(-a, b);
        let q = (-a) / b;
        assert(b * (-q) == -(b * q)) by (nonlinear_arith);
        assert(tmod(a, b) == a + b * q);
    }
}

/// The Euclidean remainder on `i32`, always in `[0, d)`.
pub(crate) fn rem_euclid_i32(x: i32, d: i32) -> (r: i32)
    requires
        d > 0,
    ensures
        r == x as int % d as int,
        0 <= r < d,
{
    proof {
        vstd::arithmetic::div_mod::lemma_mod_bound(x as int, d as int);
    }
    match x.checked_rem_euclid(d) {
        Some(v) => v,
        None => 0,
    }
}

/// The Euclidean remainder of an angle by 360, in `[0, 360)`.
fn rem_euclid_360(deg: isize) -> (r: isize)
    ensures
        r == deg as int % 360,
        0 <= r < 360,
{
    proof {
        vstd::arithmetic::div_mod::lemma_mod_bound(deg as int, 360);
    }
    match deg.checked_rem_euclid(360) {
        Some(v) => v,
        None => 0,
    }
}

} // verus!
