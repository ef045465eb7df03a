//! IEEE 754 binary32 numbers, held and compared as their 32-bit patterns.
//!
//! A pattern is a sign bit, an 8-bit exponent field and a 23-bit fraction.
//! Everything here is integer arithmetic on those three parts.

use crate::power::{lemma_two_pow_monotonic, lemma_two_pow_positive, two_pow};
use vstd::prelude::*;

verus! {

/// Weight of the sign bit in a pattern.
pub const SIGN_BIT: u32 = 0x8000_0000;

/// Weight of the lowest bit of the exponent field.
pub const FRACTION_SPAN: u32 = 0x0080_0000;

/// Magnitude of the two infinities; every larger magnitude is a NaN.
pub const INFINITY_MAGNITUDE: u32 = 0x7f80_0000;

/// The quiet NaN that this library produces.
pub const QUIET_NAN: u32 = 0x7fc0_0000;

/// The value of the number with magnitude `m`, counted in steps of
/// `2^-149`. With exponent field 0 that is the fraction; with a field
/// `f >= 1` it is the fraction with the implicit bit before it, `f - 1`
/// places higher.
pub open spec fn magnitude_units(m: int) -> int {
    let field = m / (FRACTION_SPAN as int);
    let fraction = m % (FRACTION_SPAN as int);
    if field == 0 {
        fraction
    } else {
        (FRACTION_SPAN + fraction) * two_pow(field - 1)
    }
}

/// A larger magnitude is a larger value.
pub proof fn lemma_magnitude_units_increase(m1: int, m2: int)
    requires
        0 <= m1 < m2,
    ensures
        0 <= magnitude_units(m1) < magnitude_units(m2),
{
    let span = FRACTION_SPAN as int;
    let (e1, f1) = (m1 / span, m1 % span);
    let (e2, f2) = (m2 / span, m2 % span);
    assert(e1 <= e2);
    lemma_two_pow_positive(e1 - 1);
    lemma_two_pow_positive(e2 - 1);
    let power_a = two_pow(e1 - 1);
    let power_b = two_pow(e2 - 1);
    if e1 == e2 {
        assert(f1 < f2);
        if e1 > 0 {
            assert((span + f1) * power_a < (span + f2) * power_a) by (nonlinear_arith)
                requires
                    f1 < f2,
                    power_a >= 1,
            ;
            assert(0 <= (span + f1) * power_a) by (nonlinear_arith)
                requires
                    f1 >= 0,
                    span > 0,
                    power_a >= 1,
            ;
        }
    } else {
        assert((span + f2) * power_b >= span * power_b) by (nonlinear_arith)
            requires
                f2 >= 0,
                power_b >= 1,
        ;
        assert(span * power_b >= span) by (nonlinear_arith)
            requires
                span > 0,
                power_b >= 1,
        ;
        if e1 > 0 {
            lemma_two_pow_monotonic(e1, e2 - 1);
            assert(two_pow(e1) == 2 * power_a);
            assert((span + f1) * power_a < 2 * span * power_a) by (nonlinear_arith)
                requires
                    f1 < span,
                    power_a >= 1,
            ;
            assert(2 * span * power_a <= span * power_b) by (nonlinear_arith)
                requires
                    2 * power_a <= power_b,
                    span > 0,
            ;
            assert(0 <= (span + f1) * power_a) by (nonlinear_arith)
                requires
                    f1 >= 0,
                    span > 0,
                    power_a >= 1,
            ;
        }
    }
}

/// A binary32 number, identified by its bit pattern.
#[derive(Clone, Copy, Debug)]
pub struct Binary32 {
    pub bits: u32,
}

impl Binary32 {
    /// The pattern without its sign bit.
    pub open spec fn magnitude(self) -> int {
        if self.bits >= SIGN_BIT {
            self.bits - SIGN_BIT
        } else {
            self.bits as int
        }
    }

    /// Whether the sign bit is set.
    pub open spec fn is_negative(self) -> bool {
        self.bits >= SIGN_BIT
    }

    /// The eight bits after the sign bit.
    pub open spec fn exponent_field(self) -> int {
        self.magnitude() / (FRACTION_SPAN as int)
    }

    /// The lowest 23 bits.
    pub open spec fn fraction(self) -> int {
        self.magnitude() % (FRACTION_SPAN as int)
    }

    /// Whether the pattern stands for no number.
    pub open spec fn is_nan(self) -> bool {
        self.magnitude() > INFINITY_MAGNITUDE
    }

    pub open spec fn is_infinite(self) -> bool {
        self.magnitude() == INFINITY_MAGNITUDE
    }

    pub open spec fn is_finite(self) -> bool {
        self.magnitude() < INFINITY_MAGNITUDE
    }

    pub open spec fn is_zero(self) -> bool {
        self.magnitude() == 0
    }

    /// An integer that orders the numbers as their values do: the magnitude,
    /// negated for a negative number. Both zeros have key 0. Meaningless for
    /// a NaN.
    pub open spec fn key(self) -> int {
        if self.is_negative() {
            -self.magnitude()
        } else {
            self.magnitude()
        }
    }

    /// The integer `s` of the value `s * 2^scale` of a finite number,
    /// without its sign.
    pub open spec fn significand(self) -> int {
        if self.exponent_field() == 0 {
            self.fraction()
        } else {
            FRACTION_SPAN + self.fraction()
        }
    }

    /// The exponent `scale` of the value `s * 2^scale` of a finite number.
    pub open spec fn scale(self) -> int {
        if self.exponent_field() == 0 {
            -149
        } else {
            self.exponent_field() - 150
        }
    }

    /// The value of a number that is no NaN, counted in steps of `2^-149`,
    /// the smallest distance between two numbers. An infinity counts as
    /// `2^128`, one step of the largest numbers past the largest of them.
    pub open spec fn units(self) -> int {
        if self.is_negative() {
            -magnitude_units(self.magnitude())
        } else {
            magnitude_units(self.magnitude())
        }
    }

    /// Equality of values: a NaN equals nothing, the two zeros are equal.
    pub open spec fn same_value(self, other: Binary32) -> bool {
        !self.is_nan() && !other.is_nan() && self.key() == other.key()
    }

    /// `self <= other` as values; false when either is a NaN.
    pub open spec fn at_most(self, other: Binary32) -> bool {
        !self.is_nan() && !other.is_nan() && self.key() <= other.key()
    }

    /// Whether the value lies in the closed interval `[min, max]`.
    pub open spec fn within(self, min: Binary32, max: Binary32) -> bool {
        min.at_most(self) && self.at_most(max)
    }

    /// The number with the pattern `bits`.
    pub fn from_bits(bits: u32) -> (r: Binary32)
        ensures
            r.bits == bits,
    {
        Binary32 { bits }
    }

    /// The pattern of the number.
    pub fn to_bits(&self) -> (r: u32)
        ensures
            r == self.bits,
    {
        self.bits
    }

    /// The pattern without its sign bit.
    pub fn magnitude_bits(&self) -> (r: u32)
        ensures
            r == self.magnitude(),
            r < SIGN_BIT,
    {
        if self.bits >= SIGN_BIT {
            self.bits - SIGN_BIT
        } else {
            self.bits
        }
    }

    /// Whether the sign bit is set.
    pub fn is_sign_negative(&self) -> (r: bool)
        ensures
            r == self.is_negative(),
    {
        self.bits >= SIGN_BIT
    }

    /// Whether the pattern stands for no number.
    pub fn nan(&self) -> (r: bool)
        ensures
            r == self.is_nan(),
    {
        self.magnitude_bits() > INFINITY_MAGNITUDE
    }

    /// The key by which the numbers are ordered.
    pub fn ordering_key(&self) -> (r: i64)
        ensures
            r == self.key(),
            -(SIGN_BIT as int) < r < SIGN_BIT as int,
    {
        let magnitude: u32 = self.magnitude_bits();
        if self.bits >= SIGN_BIT {
            -(magnitude as i64)
        } else {
            magnitude as i64
        }
    }

    /// Whether the two are the same value.
    pub fn value_eq(&self, other: &Binary32) -> (r: bool)
        ensures
            r == self.same_value(*other),
    {
        !self.nan() && !other.nan() && self.ordering_key() == other.ordering_key()
    }

    /// Whether `self <= other` as values.
    pub fn value_le(&self, other: &Binary32) -> (r: bool)
        ensures
            r == self.at_most(*other),
    {
        !self.nan() && !other.nan() && self.ordering_key() <= other.ordering_key()
    }

    /// Whether the value lies in the closed interval `[min, max]`.
    pub fn in_range(&self, min: &Binary32, max: &Binary32) -> (r: bool)
        ensures
            r == self.within(*min, *max),
    {
        min.value_le(self) && self.value_le(max)
    }
}

impl Binary32 {
    /// `units` is the value that the pattern stands for: the significand
    /// at its scale, counted in steps of `2^-149`, with the sign.
    pub proof fn lemma_units_is_value(self)
        ensures
            self.scale() >= -149,
            self.units() == (if self.is_negative() {
                -(self.significand() * two_pow(self.scale() + 149))
            } else {
                self.significand() * two_pow(self.scale() + 149)
            }),
    {
        let field = self.exponent_field();
        if field == 0 {
            assert(two_pow(0) == 1);
        } else {
            assert(self.scale() + 149 == field - 1);
        }
    }

    /// The numbers that are no NaN are in one line: of two of them one is
    /// at most the other, both ways only where they are the same value,
    /// and the order goes on from one to the next.
    pub proof fn lemma_order_is_total(self, other: Binary32, third: Binary32)
        ensures
            !self.is_nan() && !other.is_nan() ==> self.at_most(other) || other.at_most(self),
            self.at_most(other) && other.at_most(self) <==> self.same_value(other),
            self.at_most(other) && other.at_most(third) ==> self.at_most(third),
            self.same_value(self) <==> !self.is_nan(),
    {
    }

    /// A number lies within two bounds where its value lies between
    /// theirs, and none of the three is a NaN.
    pub proof fn lemma_within_is_between_values(self, min: Binary32, max: Binary32)
        ensures
            self.within(min, max) <==> !self.is_nan() && !min.is_nan() && !max.is_nan()
                && min.units() <= self.units() <= max.units(),
    {
        min.lemma_key_orders_values(self);
        self.lemma_key_orders_values(max);
    }

    /// The keys of two numbers compare as their values do.
    pub proof fn lemma_key_orders_values(self, other: Binary32)
        ensures
            self.key() <= other.key() <==> self.units() <= other.units(),
            self.key() == other.key() <==> self.units() == other.units(),
            self.key() == 0 <==> self.units() == 0,
    {
        let a = self.magnitude();
        let b = other.magnitude();
        assert(magnitude_units(0) == 0);
        if a < b {
            lemma_magnitude_units_increase(a, b);
        } else if b < a {
            lemma_magnitude_units_increase(b, a);
        }
        if 0 < a {
            lemma_magnitude_units_increase(0, a);
        }
        if 0 < b {
            lemma_magnitude_units_increase(0, b);
        }
    }
}

impl PartialEq for Binary32 {
    fn eq(&self, other: &Binary32) -> (r: bool) {
        self.value_eq(other)
    }
}

impl vstd::std_specs::cmp::PartialEqSpecImpl for Binary32 {
    open spec fn obeys_eq_spec() -> bool {
        true
    }

    open spec fn eq_spec(&self, other: &Binary32) -> bool {
        self.same_value(*other)
    }
}

} // verus!
