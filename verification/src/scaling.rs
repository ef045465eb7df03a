//! From a mantissa and a binary exponent to the nearest binary32 number.
//!
//! The device reports a number as two integers `(mantissa, exponent)` that
//! stand for `mantissa * 2^exponent`. This module finds the binary32 number
//! nearest to that product, a tie going to the pattern with an even
//! fraction, by integer arithmetic alone.

use crate::binary32::{
    lemma_magnitude_units_increase, magnitude_units, Binary32, FRACTION_SPAN, INFINITY_MAGNITUDE,
    QUIET_NAN, SIGN_BIT,
};
use crate::power::{
    lemma_two_pow_adds, lemma_two_pow_monotonic, lemma_two_pow_positive, lemma_two_pow_values,
    two_pow,
};
use vstd::prelude::*;

verus! {

/// The exponent of the lowest bit of a subnormal binary32 number.
pub const SUBNORMAL_SCALE: i64 = -149;

/// Above this exponent every nonzero mantissa gives an infinity.
pub const LARGEST_FINITE_EXPONENT: i32 = 127;

/// Below this exponent every mantissa gives a zero.
pub const SMALLEST_NONZERO_EXPONENT: i32 = -181;

/// From this exponent on the product with a zero mantissa is not a number.
pub const OVERFLOWING_EXPONENT: i32 = 1024;

/// How many binary digits `a` has: 0 for 0, and `n` where
/// `2^(n-1) <= a < 2^n`.
pub open spec fn bit_length(a: int) -> int
    decreases a,
{
    if a <= 0 {
        0
    } else {
        1 + bit_length(a / 2)
    }
}

/// `a / unit`, rounded to the nearest integer, a tie going to the even one.
pub open spec fn round_half_even(a: int, unit: int) -> int {
    let whole = a / unit;
    let rest = a % unit;
    if 2 * rest > unit || (2 * rest == unit && whole % 2 == 1) {
        whole + 1
    } else {
        whole
    }
}

/// The exponent of the lowest bit of the binary32 number that `a * 2^e`
/// rounds to: 23 places below the highest bit of the product, and not
/// below that of the subnormal numbers.
pub open spec fn quantum(a: int, e: int) -> int {
    if bit_length(a) + e - 24 < SUBNORMAL_SCALE {
        SUBNORMAL_SCALE as int
    } else {
        bit_length(a) + e - 24
    }
}

/// `a * 2^e` as a multiple of `2^quantum(a, e)`, rounded half to even.
pub open spec fn rounded_significand(a: int, e: int) -> int {
    let q = quantum(a, e);
    if q <= e {
        a * two_pow(e - q)
    } else {
        round_half_even(a, two_pow(q - e))
    }
}

/// The magnitude of the binary32 number nearest to `a * 2^e`, for
/// `a >= 1`. A carry out of the significand lands in the exponent field,
/// and what passes the largest finite number is an infinity.
pub open spec fn rounded_magnitude(a: int, e: int) -> int {
    let k = (quantum(a, e) - SUBNORMAL_SCALE) * FRACTION_SPAN + rounded_significand(a, e);
    if k >= INFINITY_MAGNITUDE {
        INFINITY_MAGNITUDE as int
    } else {
        k
    }
}

/// A number of `n` binary digits lies from `2^(n-1)` up to `2^n`.
pub proof fn lemma_bit_length_bounds(a: int)
    requires
        a >= 1,
    ensures
        bit_length(a) >= 1,
        two_pow(bit_length(a) - 1) <= a < two_pow(bit_length(a)),
    decreases a,
{
    if a >= 2 {
        lemma_bit_length_bounds(a / 2);
        let n = bit_length(a / 2);
        assert(bit_length(a) == n + 1);
        assert(two_pow(n) == 2 * two_pow(n - 1));
        assert(two_pow(n + 1) == 2 * two_pow(n));
    } else {
        assert(bit_length(a) == 1 + bit_length(0));
        assert(two_pow(1) == 2 * two_pow(0));
    }
}

/// A number from `2^(n-1)` up to `2^n` has `n` binary digits.
pub proof fn lemma_bit_length_unique(a: int, n: int)
    requires
        n >= 1,
        two_pow(n - 1) <= a < two_pow(n),
    ensures
        bit_length(a) == n,
{
    lemma_two_pow_positive(n - 1);
    lemma_bit_length_bounds(a);
    let m = bit_length(a);
    if m < n {
        lemma_two_pow_monotonic(m, n - 1);
    } else if m > n {
        lemma_two_pow_monotonic(n, m - 1);
    }
}

/// `a * 2^e` as a multiple of `2^quantum(a, e)`, what is left over below
/// the quantum dropped.
pub open spec fn floor_significand(a: int, e: int) -> int {
    let q = quantum(a, e);
    if q <= e {
        a * two_pow(e - q)
    } else {
        a / two_pow(q - e)
    }
}

/// Where the product is a normal number, it has 24 binary digits above
/// the quantum; where it is subnormal, fewer.
pub proof fn lemma_floor_significand_bounds(a: int, e: int)
    requires
        a >= 1,
    ensures
        bit_length(a) + e - 24 >= SUBNORMAL_SCALE ==> FRACTION_SPAN <= floor_significand(a, e) < 2
            * FRACTION_SPAN,
        bit_length(a) + e - 24 < SUBNORMAL_SCALE ==> 0 <= floor_significand(a, e) < FRACTION_SPAN,
        floor_significand(a, e) <= rounded_significand(a, e) <= floor_significand(a, e) + 1,
{
    let n = bit_length(a);
    let q = quantum(a, e);
    lemma_bit_length_bounds(a);
    lemma_two_pow_values();
    // The product lies in [2^(n-1+e), 2^(n+e)); `room` is how far the top
    // of that interval stands above the quantum.
    let room = n + e - q;
    assert(room <= 24);
    if q <= e {
        let up = e - q;
        lemma_two_pow_positive(up);
        lemma_two_pow_adds(n, up);
        lemma_two_pow_monotonic(room, 24);
        if room <= 23 {
            lemma_two_pow_monotonic(room, 23);
        }
        assert(a * two_pow(up) < two_pow(n) * two_pow(up)) by (nonlinear_arith)
            requires
                a < two_pow(n),
                two_pow(up) >= 1,
        ;
        assert(a * two_pow(up) >= 0) by (nonlinear_arith)
            requires
                a >= 1,
                two_pow(up) >= 1,
        ;
        if room == 24 {
            lemma_two_pow_adds(n - 1, up);
            assert(a * two_pow(up) >= two_pow(n - 1) * two_pow(up)) by (nonlinear_arith)
                requires
                    a >= two_pow(n - 1),
                    two_pow(up) >= 1,
            ;
        }
    } else {
        let down = q - e;
        let unit = two_pow(down);
        lemma_two_pow_positive(down);
        let whole = a / unit;
        let rest = a % unit;
        assert(a == unit * whole + rest && 0 <= rest < unit) by {
            vstd::arithmetic::div_mod::lemma_fundamental_div_mod(a, unit);
        }
        assert(whole >= 0) by (nonlinear_arith)
            requires
                a == unit * whole + rest,
                0 <= rest < unit,
                a >= 1,
                unit >= 1,
        ;
        if room >= 0 {
            // n >= down: a < 2^n == 2^room * unit.
            lemma_two_pow_adds(room, down);
            lemma_two_pow_monotonic(room, 24);
            if room <= 23 {
                lemma_two_pow_monotonic(room, 23);
            }
            assert(whole < two_pow(room)) by (nonlinear_arith)
                requires
                    a == unit * whole + rest,
                    0 <= rest < unit,
                    a < two_pow(room) * unit,
                    unit >= 1,
            ;
            if room == 24 {
                lemma_two_pow_adds(23, down);
                assert(whole >= two_pow(23)) by (nonlinear_arith)
                    requires
                        a == unit * whole + rest,
                        0 <= rest < unit,
                        a >= two_pow(23) * unit,
                        unit >= 1,
                ;
            }
        } else {
            lemma_two_pow_monotonic(n, down);
            assert(whole == 0) by (nonlinear_arith)
                requires
                    a == unit * whole + rest,
                    0 <= rest < unit,
                    a < unit,
                    whole >= 0,
            ;
        }
    }
}

/// Where the product is a normal number, its rounded significand has 24
/// binary digits, or is the carry `2^24`; where it is subnormal, the
/// significand stays at or below `2^23`.
pub proof fn lemma_rounded_significand_bounds(a: int, e: int)
    requires
        a >= 1,
    ensures
        bit_length(a) + e - 24 >= SUBNORMAL_SCALE ==> FRACTION_SPAN <= rounded_significand(a, e)
            <= 2 * FRACTION_SPAN,
        bit_length(a) + e - 24 < SUBNORMAL_SCALE ==> 0 <= rounded_significand(a, e)
            <= FRACTION_SPAN,
{
    lemma_floor_significand_bounds(a, e);
}

/// Whether `k` is the magnitude of the binary32 number nearest to
/// `a * 2^e`, an infinity counting as `2^128`: the product lies no nearer
/// to the number below `k` nor to the number above it, and where it lies
/// halfway to one of them, `k` is even. The product and the numbers are
/// compared in steps of `2^e` or of `2^-149`, whichever is smaller.
pub open spec fn is_nearest(a: int, e: int, k: int) -> bool {
    let base = if e < SUBNORMAL_SCALE {
        e
    } else {
        SUBNORMAL_SCALE as int
    };
    let twice = 2 * (a * two_pow(e - base));
    let step = two_pow(SUBNORMAL_SCALE - base);
    let below = (magnitude_units(k - 1) + magnitude_units(k)) * step;
    let above = (magnitude_units(k) + magnitude_units(k + 1)) * step;
    &&& 0 <= k <= INFINITY_MAGNITUDE
    &&& k > 0 ==> below <= twice
    &&& k < INFINITY_MAGNITUDE ==> twice <= above
    &&& k > 0 && below == twice ==> k % 2 == 0
    &&& k < INFINITY_MAGNITUDE && twice == above ==> k % 2 == 0
}

/// Only one magnitude is nearest to a product.
pub proof fn lemma_nearest_is_unique(a: int, e: int, k: int, other: int)
    requires
        is_nearest(a, e, k),
        is_nearest(a, e, other),
    ensures
        k == other,
{
    if k != other {
        let (low, high) = if k < other {
            (k, other)
        } else {
            (other, k)
        };
        let base = if e < SUBNORMAL_SCALE {
            e
        } else {
            SUBNORMAL_SCALE as int
        };
        let step = two_pow(SUBNORMAL_SCALE - base);
        lemma_two_pow_positive(SUBNORMAL_SCALE - base);
        let twice = 2 * (a * two_pow(e - base));
        let above_low = (magnitude_units(low) + magnitude_units(low + 1)) * step;
        let below_high = (magnitude_units(high - 1) + magnitude_units(high)) * step;
        assert(below_high <= twice <= above_low);
        if low + 1 < high {
            lemma_magnitude_units_increase(low, high - 1);
            lemma_magnitude_units_increase(low + 1, high);
            assert(above_low < below_high) by (nonlinear_arith)
                requires
                    above_low == (magnitude_units(low) + magnitude_units(low + 1)) * step,
                    below_high == (magnitude_units(high - 1) + magnitude_units(high)) * step,
                    magnitude_units(low) < magnitude_units(high - 1),
                    magnitude_units(low + 1) < magnitude_units(high),
                    step >= 1,
            ;
        } else {
            assert(above_low == below_high);
            assert(low % 2 == 0 && high % 2 == 0);
        }
    }
}

/// The value of the pattern with significand `s` at the quantum `q`.
proof fn lemma_pattern_units(q: int, s: int)
    requires
        q >= SUBNORMAL_SCALE,
        0 <= s <= 2 * FRACTION_SPAN,
        q > SUBNORMAL_SCALE ==> s >= FRACTION_SPAN,
    ensures
        magnitude_units((q - SUBNORMAL_SCALE) * FRACTION_SPAN + s) == s * two_pow(
            q - SUBNORMAL_SCALE,
        ),
{
    let span = FRACTION_SPAN as int;
    let m = (q - SUBNORMAL_SCALE) * span + s;
    let up = q - SUBNORMAL_SCALE;
    if s < span {
        assert(m == s);
        assert(m / span == 0 && m % span == s);
        assert(two_pow(0) == 1);
    } else if s < 2 * span {
        assert(m == (up + 1) * span + (s - span));
        assert(m / span == up + 1 && m % span == s - span);
    } else {
        assert(m == (up + 2) * span);
        assert(m / span == up + 2 && m % span == 0);
        assert(two_pow(up + 1) == 2 * two_pow(up));
        assert(span * (2 * two_pow(up)) == (2 * span) * two_pow(up)) by (nonlinear_arith);
    }
}

/// `rounded_magnitude` rounds to the nearest number, a tie to the even
/// one.
pub proof fn lemma_rounded_magnitude_is_nearest(a: int, e: int)
    requires
        a >= 1,
    ensures
        is_nearest(a, e, rounded_magnitude(a, e)),
{
    let span = FRACTION_SPAN as int;
    let inf = INFINITY_MAGNITUDE as int;
    let q = quantum(a, e);
    let base = if e < SUBNORMAL_SCALE {
        e
    } else {
        SUBNORMAL_SCALE as int
    };
    let t = two_pow(e - base);
    let step = two_pow(SUBNORMAL_SCALE - base);
    let p = two_pow(q - SUBNORMAL_SCALE);
    let g = two_pow(q - base);
    let f = floor_significand(a, e);
    let sig = rounded_significand(a, e);
    let kf = (q - SUBNORMAL_SCALE) * span + f;
    let k0 = (q - SUBNORMAL_SCALE) * span + sig;
    let k = rounded_magnitude(a, e);
    let x = a * t;

    lemma_floor_significand_bounds(a, e);
    lemma_two_pow_positive(e - base);
    lemma_two_pow_positive(SUBNORMAL_SCALE - base);
    lemma_two_pow_positive(q - base);
    lemma_two_pow_adds(q - SUBNORMAL_SCALE, SUBNORMAL_SCALE - base);
    assert(g == p * step);

    // The product is `f` steps of the quantum and a rest below one step.
    let rest_t = x - f * g;
    let unit = if q <= e {
        1int
    } else {
        two_pow(q - e)
    };
    let rest = if q <= e {
        0int
    } else {
        a % unit
    };
    if q <= e {
        lemma_two_pow_adds(e - q, q - base);
        assert(a * (two_pow(e - q) * g) == (a * two_pow(e - q)) * g) by (nonlinear_arith);
        assert(rest_t == 0);
        assert(sig == f);
    } else {
        lemma_two_pow_adds(q - e, e - base);
        lemma_two_pow_positive(q - e);
        assert(a == unit * f + rest && 0 <= rest < unit) by {
            vstd::arithmetic::div_mod::lemma_fundamental_div_mod(a, unit);
        }
        assert(rest_t == rest * t) by (nonlinear_arith)
            requires
                rest_t == a * t - f * g,
                a == unit * f + rest,
                g == unit * t,
        ;
        assert(0 <= rest_t < g) by (nonlinear_arith)
            requires
                rest_t == rest * t,
                g == unit * t,
                0 <= rest < unit,
                t >= 1,
        ;
        assert(2 * rest < unit ==> 2 * rest_t < g) by (nonlinear_arith)
            requires
                rest_t == rest * t,
                g == unit * t,
                t >= 1,
        ;
        assert(2 * rest > unit ==> 2 * rest_t > g) by (nonlinear_arith)
            requires
                rest_t == rest * t,
                g == unit * t,
                t >= 1,
        ;
        assert(2 * rest == unit ==> 2 * rest_t == g) by (nonlinear_arith)
            requires
                rest_t == rest * t,
                g == unit * t,
                t >= 1,
        ;
    }
    assert(0 <= rest_t < g);
    assert(sig == f ==> 2 * rest_t <= g);
    assert(sig == f && 2 * rest_t == g ==> f % 2 == 0);
    assert(sig == f + 1 ==> 2 * rest_t >= g);
    assert(sig == f + 1 && 2 * rest_t == g ==> f % 2 == 1);

    // The numbers at `kf` and one above, in the steps of the comparison.
    lemma_pattern_units(q, f);
    lemma_pattern_units(q, f + 1);
    let at_floor = magnitude_units(kf) * step;
    let at_next = magnitude_units(kf + 1) * step;
    assert(at_floor == f * g) by (nonlinear_arith)
        requires
            at_floor == (f * p) * step,
            g == p * step,
    ;
    assert(at_next == f * g + g) by (nonlinear_arith)
        requires
            at_next == ((f + 1) * p) * step,
            g == p * step,
    ;
    assert(at_floor <= x < at_next);
    assert(kf >= 0);

    if k0 < inf {
        assert(k == k0);
        lemma_magnitude_units_increase(k, k + 1);
        assert(magnitude_units(k) * step < magnitude_units(k + 1) * step) by (nonlinear_arith)
            requires
                magnitude_units(k) < magnitude_units(k + 1),
                step >= 1,
        ;
        if k > 0 {
            lemma_magnitude_units_increase(k - 1, k);
            assert(magnitude_units(k - 1) * step < magnitude_units(k) * step)
                by (nonlinear_arith)
                requires
                    magnitude_units(k - 1) < magnitude_units(k),
                    step >= 1,
            ;
        }
        assert((magnitude_units(k - 1) + magnitude_units(k)) * step == magnitude_units(k - 1)
            * step + magnitude_units(k) * step) by (nonlinear_arith);
        assert((magnitude_units(k) + magnitude_units(k + 1)) * step == magnitude_units(k) * step
            + magnitude_units(k + 1) * step) by (nonlinear_arith);
        if sig == f {
            assert(k == kf);
            assert(k % 2 == f % 2);
        } else {
            assert(k == kf + 1);
            assert(k % 2 == (f + 1) % 2);
        }
    } else {
        assert(k == inf);
        assert(inf % 2 == 0);
        lemma_magnitude_units_increase(inf - 1, inf);
        assert((magnitude_units(inf - 1) + magnitude_units(inf)) * step == magnitude_units(
            inf - 1,
        ) * step + magnitude_units(inf) * step) by (nonlinear_arith);
        assert(magnitude_units(inf - 1) * step < magnitude_units(inf) * step) by (nonlinear_arith)
            requires
                magnitude_units(inf - 1) < magnitude_units(inf),
                step >= 1,
        ;
        if kf >= inf {
            if kf > inf {
                lemma_magnitude_units_increase(inf, kf);
            }
            assert(magnitude_units(inf) * step <= at_floor) by (nonlinear_arith)
                requires
                    magnitude_units(inf) <= magnitude_units(kf),
                    at_floor == magnitude_units(kf) * step,
                    step >= 1,
            ;
        } else {
            assert(kf + 1 == inf);
        }
    }
}

impl Binary32 {
    /// The binary32 number nearest to `mantissa * 2^exponent`, as the
    /// device's arithmetic gives it: the sign is that of the mantissa, a
    /// zero mantissa gives the positive zero, and gives a NaN from the
    /// exponent on at which `2^exponent` itself overflows.
    pub open spec fn scaled(mantissa: int, exponent: int) -> Binary32 {
        if mantissa == 0 {
            if exponent >= OVERFLOWING_EXPONENT {
                Binary32 { bits: QUIET_NAN }
            } else {
                Binary32 { bits: 0 }
            }
        } else if mantissa < 0 {
            Binary32 { bits: (SIGN_BIT + rounded_magnitude(-mantissa, exponent)) as u32 }
        } else {
            Binary32 { bits: rounded_magnitude(mantissa, exponent) as u32 }
        }
    }

    /// With a mantissa other than zero, `scaled` is a number with the sign
    /// of the mantissa, never a NaN, and of all binary32 numbers the one
    /// nearest to the product, a tie going to the even pattern.
    pub proof fn lemma_scaled_is_nearest(mantissa: int, exponent: int)
        requires
            mantissa != 0,
        ensures
            !Self::scaled(mantissa, exponent).is_nan(),
            Self::scaled(mantissa, exponent).is_negative() == (mantissa < 0),
            is_nearest(
                if mantissa < 0 {
                    -mantissa
                } else {
                    mantissa
                },
                exponent,
                Self::scaled(mantissa, exponent).magnitude(),
            ),
    {
        let a = if mantissa < 0 {
            -mantissa
        } else {
            mantissa
        };
        lemma_rounded_magnitude_is_nearest(a, exponent);
    }

    /// A zero mantissa gives the positive zero, up to the exponent from
    /// which on it gives a NaN.
    pub proof fn lemma_scaled_zero(exponent: int)
        ensures
            exponent < OVERFLOWING_EXPONENT ==> Self::scaled(0, exponent) == (Binary32 { bits: 0 }),
            exponent >= OVERFLOWING_EXPONENT ==> Self::scaled(0, exponent).is_nan(),
    {
    }

    /// The binary32 number nearest to `mantissa * 2^exponent`.
    pub fn from_scaled(mantissa: i32, exponent: i32) -> (r: Binary32)
        ensures
            r == Self::scaled(mantissa as int, exponent as int),
    {
        if mantissa == 0 {
            if exponent >= OVERFLOWING_EXPONENT {
                Binary32 { bits: QUIET_NAN }
            } else {
                Binary32 { bits: 0 }
            }
        } else if mantissa < 0 {
            let a: u64 = (-(mantissa as i64)) as u64;
            Binary32 { bits: SIGN_BIT + round_scaled(a, exponent) }
        } else {
            Binary32 { bits: round_scaled(mantissa as u64, exponent) }
        }
    }
}

fn power_of_two(n: u32) -> (r: u64)
    requires
        n <= 33,
    ensures
        r == two_pow(n as int),
        1 <= r <= 0x2_0000_0000,
{
    let mut r: u64 = 1;
    let mut i: u32 = 0;
    proof {
        lemma_two_pow_values();
    }
    while i < n
        invariant
            i <= n <= 33,
            r == two_pow(i as int),
            1 <= r <= two_pow(33),
            two_pow(33) == 0x2_0000_0000,
        decreases n - i,
    {
        proof {
            lemma_two_pow_monotonic(i as int + 1, 33);
            assert(two_pow(i as int + 1) == 2 * two_pow(i as int));
        }
        r = r * 2;
        i = i + 1;
    }
    r
}

fn binary_digits(a: u64) -> (n: u32)
    requires
        1 <= a <= 0x8000_0000,
    ensures
        n == bit_length(a as int),
        1 <= n <= 32,
{
    let mut n: u32 = 0;
    let mut bound: u64 = 1;
    proof {
        lemma_two_pow_values();
    }
    while bound <= a
        invariant
            1 <= a <= 0x8000_0000,
            n <= 32,
            bound == two_pow(n as int),
            n >= 1 ==> two_pow(n as int - 1) <= a,
            two_pow(32) == 0x1_0000_0000,
        decreases 33 - n,
    {
        proof {
            if n == 32 {
                assert(bound > a);
            }
            assert(two_pow(n as int + 1) == 2 * two_pow(n as int));
            lemma_two_pow_monotonic(n as int + 1, 32);
        }
        bound = bound * 2;
        n = n + 1;
    }
    proof {
        lemma_bit_length_unique(a as int, n as int);
    }
    n
}

/// The magnitude of the binary32 number nearest to `a * 2^e`.
fn round_scaled(a: u64, e: i32) -> (k: u32)
    requires
        1 <= a <= 0x8000_0000,
    ensures
        k == rounded_magnitude(a as int, e as int),
        k <= INFINITY_MAGNITUDE,
{
    proof {
        lemma_two_pow_values();
        lemma_bit_length_bounds(a as int);
        lemma_rounded_significand_bounds(a as int, e as int);
        if bit_length(a as int) > 32 {
            lemma_two_pow_monotonic(32, bit_length(a as int) - 1);
        }
    }
    if e > LARGEST_FINITE_EXPONENT {
        return INFINITY_MAGNITUDE;
    }
    if e < SMALLEST_NONZERO_EXPONENT {
        proof {
            let down = SUBNORMAL_SCALE - e;
            lemma_two_pow_monotonic(33, down);
            let unit = two_pow(down);
            assert(a as int / unit == 0 && a as int % unit == a) by {
                vstd::arithmetic::div_mod::lemma_basic_div(a as int, unit);
                vstd::arithmetic::div_mod::lemma_small_mod(a as nat, unit as nat);
            }
        }
        return 0;
    }
    let digits: i64 = binary_digits(a) as i64;
    let natural: i64 = digits + e as i64 - 24;
    let q: i64 = if natural < SUBNORMAL_SCALE {
        SUBNORMAL_SCALE
    } else {
        natural
    };
    let shift: i64 = q - e as i64;
    let significand: u64 = if shift <= 0 {
        let factor: u64 = power_of_two((-shift) as u32);
        a * factor
    } else {
        let unit: u64 = power_of_two(shift as u32);
        let whole: u64 = a / unit;
        let rest: u64 = a % unit;
        if 2 * rest > unit || (2 * rest == unit && whole % 2 == 1) {
            whole + 1
        } else {
            whole
        }
    };
    let k: u64 = ((q - SUBNORMAL_SCALE) as u64) * (FRACTION_SPAN as u64) + significand;
    if k >= INFINITY_MAGNITUDE as u64 {
        INFINITY_MAGNITUDE
    } else {
        k as u32
    }
}

} // verus!
