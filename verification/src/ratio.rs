//! The split ratio as an exact rational number.

use vstd::prelude::*;

verus! {

/// A split ratio: the percentage of the container's extent allotted to the
/// first region, kept as the exact rational number `num / den`.
///
/// A drag computes the ratio as `(anchor_size + delta) * 100 /
/// container_size`; storing numerator and denominator keeps that quotient
/// exact. `den == 0` encodes the degenerate ratio that a zero-extent
/// container produces: the controller passes it through unchanged, and the
/// host layer decides how to display it.
#[derive(Clone, Copy, PartialEq, Eq, Structural, Debug)]
pub struct Ratio {
    pub num: i64,
    pub den: i64,
}

impl Ratio {
    /// The ratio standing for a whole number of percent.
    pub open spec fn spec_from_percent(percent: i64) -> Ratio {
        Ratio { num: percent, den: 1 }
    }

    /// Whether this ratio is a well-defined number.
    pub open spec fn is_finite(self) -> bool {
        self.den != 0
    }

    /// Whether two finite ratios stand for the same number, by
    /// cross-multiplication.
    pub open spec fn same_value(self, other: Ratio) -> bool {
        &&& self.den != 0
        &&& other.den != 0
        &&& self.num * other.den == other.num * self.den
    }

    pub fn from_percent(percent: i64) -> (r: Ratio)
        ensures
            r == Ratio::spec_from_percent(percent),
    {
        Ratio { num: percent, den: 1 }
    }

    /// Whether `self` and `other` are finite and stand for the same number.
    pub fn equals_value(&self, other: &Ratio) -> (r: bool)
        ensures
            r == self.same_value(*other),
    {
        if self.den == 0 || other.den == 0 {
            false
        } else {
            proof {
                lemma_i64_product_fits_i128(self.num as int, other.den as int);
                lemma_i64_product_fits_i128(other.num as int, self.den as int);
            }
            let left: i128 = self.num as i128 * other.den as i128;
            let right: i128 = other.num as i128 * self.den as i128;
            left == right
        }
    }
}

/// The product of two values in the range of `i64` fits in an `i128`.
proof fn lemma_i64_product_fits_i128(a: int, b: int)
    requires
        i64::MIN <= a <= i64::MAX,
        i64::MIN <= b <= i64::MAX,
    ensures
        i128::MIN <= a * b <= i128::MAX,
{
    assert(i128::MIN <= a * b <= i128::MAX) by (nonlinear_arith)
        requires
            i64::MIN <= a <= i64::MAX,
            i64::MIN <= b <= i64::MAX,
    ;
}

} // verus!
