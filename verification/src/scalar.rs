//! Single-precision numbers as plain data.
//!
//! A binary32 pattern has a sign bit, eight exponent bits and twenty-three
//! fraction bits. This module says which number a pattern stands for, and
//! decides the order of two numbers on their patterns alone.

use vstd::prelude::*;
use vstd::arithmetic::power2::{lemma_pow2_pos, lemma_pow2_strictly_increases, lemma_pow2_unfold, pow2};

verus! {

/// The bit that separates negative patterns from non-negative ones.
pub const SIGN_BIT: u32 = 0x8000_0000;

/// The magnitude of an infinity; every larger magnitude is a NaN.
pub const INFINITY_MAGNITUDE: u32 = 0x7f80_0000;

/// The number of fractions that share one exponent: two to the power 23.
pub const FRACTION_RANGE: u32 = 0x80_0000;

/// An IEEE-754 binary32 number, carried by its bit pattern.
///
/// The codec never adds or multiplies two of these: it moves them, and it
/// compares a singular value with a cutoff.
#[derive(Clone, Copy, Debug, PartialEq, Eq, Structural)]
pub struct Scalar {
    pub bits: u32,
}

/// The absolute value, in units of two to the power -149, of the finite
/// number whose pattern without the sign bit is `magnitude`: the fraction
/// itself where the exponent field is zero, and otherwise the fraction with a
/// leading one, doubled once for each step of the exponent above one.
pub open spec fn scaled_magnitude(magnitude: int) -> int {
    let exponent = magnitude / (FRACTION_RANGE as int);
    let fraction = magnitude % (FRACTION_RANGE as int);
    if exponent == 0 {
        fraction
    } else {
        (FRACTION_RANGE + fraction) * pow2((exponent - 1) as nat)
    }
}

impl Scalar {
    /// Whether the sign bit is set.
    pub open spec fn is_negative(self) -> bool {
        self.bits >= SIGN_BIT
    }

    /// The pattern with the sign bit cleared.
    pub open spec fn magnitude(self) -> int {
        if self.bits >= SIGN_BIT {
            self.bits - SIGN_BIT
        } else {
            self.bits as int
        }
    }

    /// Whether the pattern encodes no number.
    pub open spec fn is_nan(self) -> bool {
        self.magnitude() > INFINITY_MAGNITUDE
    }

    /// Whether the pattern encodes an infinity.
    pub open spec fn is_infinite(self) -> bool {
        self.magnitude() == INFINITY_MAGNITUDE
    }

    /// Whether the pattern encodes a number that is not an infinity.
    pub open spec fn is_finite(self) -> bool {
        self.magnitude() < INFINITY_MAGNITUDE
    }

    /// The finite number that the pattern encodes, in units of two to the
    /// power -149. In these units every finite binary32 number is an integer.
    pub open spec fn scaled_value(self) -> int {
        if self.is_negative() {
            -scaled_magnitude(self.magnitude())
        } else {
            scaled_magnitude(self.magnitude())
        }
    }

    /// `self > other` as IEEE-754 defines it. A NaN exceeds nothing and
    /// nothing exceeds it; the positive infinity exceeds every other number;
    /// every number but the negative infinity exceeds the negative infinity;
    /// two finite numbers compare as their values do.
    pub open spec fn exceeds(self, other: Scalar) -> bool {
        if self.is_nan() || other.is_nan() {
            false
        } else if self.is_infinite() {
            !self.is_negative() && !(other.is_infinite() && !other.is_negative())
        } else if other.is_infinite() {
            other.is_negative()
        } else {
            self.scaled_value() > other.scaled_value()
        }
    }

    /// The signed magnitude of the pattern: the integer by which patterns are
    /// compared.
    pub open spec fn ordinal(self) -> int {
        if self.is_negative() {
            -self.magnitude()
        } else {
            self.magnitude()
        }
    }

    /// The number with the given bit pattern.
    pub fn from_bits(bits: u32) -> (s: Scalar)
        ensures
            s.bits == bits,
    {
        Scalar { bits }
    }

    /// The bit pattern of the number.
    pub fn to_bits(self) -> (bits: u32)
        ensures
            bits == self.bits,
    {
        self.bits
    }

    fn magnitude_of(self) -> (m: u32)
        ensures
            m == self.magnitude(),
    {
        if self.bits >= SIGN_BIT {
            self.bits - SIGN_BIT
        } else {
            self.bits
        }
    }

    /// Decides `self > other` on the two patterns, without arithmetic on the
    /// numbers themselves.
    pub fn greater_than(self, other: Scalar) -> (r: bool)
        ensures
            r == self.exceeds(other),
    {
        proof {
            lemma_exceeds_by_ordinal(self, other);
        }
        let a: u32 = self.magnitude_of();
        let b: u32 = other.magnitude_of();
        if a > INFINITY_MAGNITUDE || b > INFINITY_MAGNITUDE {
            false
        } else if self.bits >= SIGN_BIT {
            // A negative number exceeds only a negative of larger magnitude.
            other.bits >= SIGN_BIT && a < b
        } else if other.bits >= SIGN_BIT {
            // A non-negative number exceeds every negative one, but +0 does
            // not exceed -0.
            a > 0 || b > 0
        } else {
            a > b
        }
    }
}

/// Among the patterns of finite numbers, a larger pattern stands for a larger
/// absolute value.
pub proof fn lemma_scaled_magnitude_increases(x: int, y: int)
    requires
        0 <= x < y < INFINITY_MAGNITUDE,
    ensures
        0 <= scaled_magnitude(x) < scaled_magnitude(y),
{
    let range = FRACTION_RANGE as int;
    let (ex, fx) = (x / range, x % range);
    let (ey, fy) = (y / range, y % range);
    assert(ex <= ey) by (nonlinear_arith)
        requires
            x < y,
            x == ex * range + fx,
            y == ey * range + fy,
            0 <= fx < range,
            0 <= fy < range,
    ;
    if ex > 0 {
        lemma_pow2_pos((ex - 1) as nat);
    }
    lemma_pow2_pos((ey - 1) as nat);
    let px = pow2((ex - 1) as nat) as int;
    let py = pow2((ey - 1) as nat) as int;
    if ex == ey {
        if ex > 0 {
            assert((range + fx) * px < (range + fy) * px) by (nonlinear_arith)
                requires
                    fx < fy,
                    px > 0,
            ;
            assert(0 <= (range + fx) * px) by (nonlinear_arith)
                requires
                    0 <= fx,
                    range > 0,
                    px > 0,
            ;
        }
    } else {
        // The largest value of one exponent lies below the smallest value of
        // the next exponent.
        assert(range * py <= (range + fy) * py) by (nonlinear_arith)
            requires
                0 <= fy,
                py > 0,
        ;
        if ex == 0 {
            assert(range <= range * py) by (nonlinear_arith)
                requires
                    py >= 1,
                    range > 0,
            ;
        } else {
            lemma_pow2_unfold(ex as nat);
            if ex < ey - 1 {
                lemma_pow2_strictly_increases(ex as nat, (ey - 1) as nat);
            }
            let pn = pow2(ex as nat) as int;
            assert((range + fx) * px < range * pn) by (nonlinear_arith)
                requires
                    0 <= fx < range,
                    px > 0,
                    pn == 2 * px,
            ;
            assert(range * pn <= range * py) by (nonlinear_arith)
                requires
                    pn <= py,
                    range > 0,
            ;
            assert(0 <= (range + fx) * px) by (nonlinear_arith)
                requires
                    0 <= fx,
                    range > 0,
                    px > 0,
            ;
        }
    }
}

/// Numbers compare as their signed magnitudes do: `a` exceeds `b` exactly
/// when neither is a NaN and the ordinal of `a` is the larger one.
pub proof fn lemma_exceeds_by_ordinal(a: Scalar, b: Scalar)
    ensures
        a.exceeds(b) <==> (!a.is_nan() && !b.is_nan() && a.ordinal() > b.ordinal()),
{
    if a.is_finite() && b.is_finite() {
        let (x, y) = (a.magnitude(), b.magnitude());
        if x < y {
            lemma_scaled_magnitude_increases(x, y);
        } else if y < x {
            lemma_scaled_magnitude_increases(y, x);
        }
        if 0 < x {
            lemma_scaled_magnitude_increases(0, x);
        }
        if 0 < y {
            lemma_scaled_magnitude_increases(0, y);
        }
    }
}

} // verus!
