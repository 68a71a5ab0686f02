use vstd::prelude::*;

verus! {

/// Half turn in milliradians.
pub const PI_MRAD: i64 = 3141;

/// Full turn in milliradians.
pub const TWO_PI_MRAD: i64 = 6282;

/// Rational approximation of the sine over a half turn (Bhaskara I's
/// formula), in thousandths: for `x` in `[0, PI_MRAD]` this is
/// `16 x (pi - x) / (5 pi^2 - 4 x (pi - x))`, scaled by 1000.
pub open spec fn half_wave(x: int) -> int {
    (16000 * x * (PI_MRAD - x)) / (5 * PI_MRAD * PI_MRAD - 4 * x * (PI_MRAD - x))
}

/// Fixed-point sine: the angle is in milliradians, the result in
/// thousandths of the unit amplitude. The angle is reduced modulo one full
/// turn; the second half turn is the negated mirror of the first.
pub open spec fn spec_sin_milli(angle: int) -> int {
    let a = angle % (TWO_PI_MRAD as int);
    if a <= PI_MRAD {
        half_wave(a)
    } else {
        -half_wave(a - PI_MRAD)
    }
}

/// The largest value `x * (PI_MRAD - x)` takes over `[0, PI_MRAD]`, reached
/// between 1570 and 1571.
proof fn lemma_parabola_bound(x: int)
    requires
        0 <= x <= PI_MRAD,
    ensures
        0 <= x * (PI_MRAD - x) <= 2466470,
{
    assert((x - 1570) * (x - 1571) >= 0) by (nonlinear_arith)
        requires
            x <= 1570 || x >= 1571,
    ;
    assert(x * (3141 - x) <= 2466470) by (nonlinear_arith)
        requires
            (x - 1570) * (x - 1571) >= 0,
    ;
    assert(x * (PI_MRAD - x) >= 0) by (nonlinear_arith)
        requires
            0 <= x <= PI_MRAD,
    ;
}

/// The half-wave approximation stays within the unit amplitude.
pub proof fn lemma_half_wave_bounds(x: int)
    requires
        0 <= x <= PI_MRAD,
    ensures
        0 <= half_wave(x) <= 1000,
        5 * PI_MRAD * PI_MRAD - 4 * x * (PI_MRAD - x) >= 39463525,
        0 <= 16000 * x * (PI_MRAD - x) <= 16000 * 2466470,
{
    let p = x * (PI_MRAD - x);
    lemma_parabola_bound(x);
    let num = 16000 * p;
    let den = 5 * PI_MRAD * PI_MRAD - 4 * p;
    assert(16000 * x * (PI_MRAD - x) == num && 4 * x * (PI_MRAD - x) == 4 * p)
        by (nonlinear_arith)
        requires
            p == x * (PI_MRAD - x),
            num == 16000 * p,
    ;
    assert(den == 49329405 - 4 * p);
    assert(den >= 49329405 - 4 * 2466470);
    vstd::arithmetic::div_mod::lemma_div_is_ordered(0, num, den);
    assert(num <= 1000 * den);
    vstd::arithmetic::div_mod::lemma_div_is_ordered(num, 1000 * den, den);
    vstd::arithmetic::div_mod::lemma_div_multiples_vanish(1000, den);
    assert((den * 1000) / den == 1000);
    assert(num / den <= 1000);
}

/// Fixed-point sine of a non-negative angle in milliradians, in thousandths
/// of the unit amplitude; always within the unit amplitude.
pub fn sin_milli(angle: i64) -> (r: i64)
    requires
        0 <= angle,
    ensures
        r == spec_sin_milli(angle as int),
        -1000 <= r <= 1000,
{
    let a: i64 = angle % TWO_PI_MRAD;
    if a <= PI_MRAD {
        proof {
            lemma_half_wave_bounds(a as int);
        }
        (16000 * a * (PI_MRAD - a)) / (5 * PI_MRAD * PI_MRAD - 4 * a * (PI_MRAD - a))
    } else {
        let x: i64 = a - PI_MRAD;
        proof {
            lemma_half_wave_bounds(x as int);
        }
        -((16000 * x * (PI_MRAD - x)) / (5 * PI_MRAD * PI_MRAD - 4 * x * (PI_MRAD - x)))
    }
}

} // verus!
