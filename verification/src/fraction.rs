//! Exact unit-interval fractions.
//!
//! The slider keeps its thumb position as a fraction `num / den` with
//! `0 <= num <= den`, so every pixel-to-value computation is exact: no
//! rounding happens before a domain value is produced.

use vstd::arithmetic::div_mod::{lemma_div_is_ordered, lemma_div_multiples_vanish};
use vstd::arithmetic::mul::lemma_mul_inequality;
use vstd::prelude::*;

verus! {

/// A fraction `num / den` in the unit interval `[0, 1]`: the normalized
/// position of a slider thumb between its two bounds.
#[derive(Clone, Copy, Debug, PartialEq, Eq, Structural)]
pub struct Fraction {
    pub num: u64,
    pub den: u64,
}

impl Fraction {
    /// Well-formed: the denominator is positive and the value lies in `[0, 1]`.
    pub open spec fn wf(self) -> bool {
        1 <= self.den && self.num <= self.den
    }

    /// The mathematical comparison `self <= other`, by cross multiplication.
    pub open spec fn spec_le(self, other: Fraction) -> bool {
        self.num * other.den <= other.num * self.den
    }

    pub open spec fn is_zero(self) -> bool {
        self.num == 0
    }

    pub open spec fn is_one(self) -> bool {
        self.num == self.den
    }

    /// The fraction in whole percent points, rounded down.
    pub open spec fn spec_percent(self) -> int {
        self.num * 100 / (self.den as int)
    }

    pub fn new(num: u64, den: u64) -> (r: Fraction)
        requires
            1 <= den,
            num <= den,
        ensures
            r.wf(),
            r.num == num,
            r.den == den,
    {
        Fraction { num, den }
    }

    pub fn zero() -> (r: Fraction)
        ensures
            r.wf(),
            r.is_zero(),
            !r.is_one(),
    {
        Fraction { num: 0, den: 1 }
    }

    /// Whether `self <= other` as mathematical fractions.
    pub fn le(&self, other: &Fraction) -> (r: bool)
        requires
            self.wf(),
            other.wf(),
        ensures
            r == self.spec_le(*other),
    {
        proof {
            lemma_mul_inequality(self.num as int, u64::MAX as int, other.den as int);
            lemma_mul_inequality(other.num as int, u64::MAX as int, self.den as int);
        }
        (self.num as u128) * (other.den as u128) <= (other.num as u128) * (self.den as u128)
    }

    /// Whole percent points, rounded down: `floor(100 * num / den)`.
    pub fn percent(&self) -> (r: u64)
        requires
            self.wf(),
        ensures
            r == self.spec_percent(),
            r <= 100,
    {
        proof {
            lemma_mul_inequality(self.num as int, self.den as int, 100);
            lemma_div_is_ordered(self.num * 100, self.den * 100, self.den as int);
            lemma_div_multiples_vanish(100, self.den as int);
        }
        (((self.num as u128) * 100) / (self.den as u128)) as u64
    }
}

} // verus!
