//! Exact fractions, in which the scores are kept.

use vstd::prelude::*;

verus! {

/// The fraction `num / den`.
#[derive(Clone, Copy, Debug, PartialEq, Eq, Structural)]
pub struct Ratio {
    pub num: u128,
    pub den: u128,
}

impl Ratio {
    /// The fraction has a value.
    pub open spec fn wf(self) -> bool {
        self.den > 0
    }

    /// The value of the fraction.
    pub open spec fn value(self) -> real {
        self.num as real / self.den as real
    }

    /// The value lies between 0 and 1.
    pub open spec fn in_unit(self) -> bool {
        self.wf() && self.num <= self.den
    }

    pub fn new(num: u128, den: u128) -> (r: Ratio)
        requires
            den > 0,
        ensures
            r == (Ratio { num, den }),
            r.wf(),
    {
        Ratio { num, den }
    }

    /// The fraction 0/1.
    pub fn zero() -> (r: Ratio)
        ensures
            r == (Ratio { num: 0, den: 1 }),
            r.value() == 0real,
    {
        let r = Ratio { num: 0, den: 1 };
        proof {
            r.in_unit_value();
        }
        r
    }

    /// The fraction 1/1.
    pub fn one() -> (r: Ratio)
        ensures
            r == (Ratio { num: 1, den: 1 }),
            r.value() == 1real,
    {
        let r = Ratio { num: 1, den: 1 };
        proof {
            r.in_unit_value();
        }
        r
    }

    /// Whether the value is below one half.
    pub fn below_half(&self) -> (b: bool)
        requires
            self.wf(),
        ensures
            b == (self.value() < 1real / 2real),
    {
        proof {
            let n = self.num as real;
            let d = self.den as real;
            assert((n / d < 1real / 2real) == (2real * n < d)) by (nonlinear_arith)
                requires
                    d > 0real,
            ;
        }
        self.num < self.den && self.num < self.den - self.num
    }

    /// A fraction whose numerator is at most its denominator has a value between 0 and 1:
    /// it is 0 exactly where the numerator is, and 1 exactly where the two are equal.
    pub proof fn in_unit_value(self)
        requires
            self.in_unit(),
        ensures
            0real <= self.value() <= 1real,
            self.value() == 0real <==> self.num == 0,
            self.value() == 1real <==> self.num == self.den,
    {
        let n = self.num as real;
        let d = self.den as real;
        assert(0real <= n / d <= 1real && (n / d == 0real <==> n == 0real) && (n / d == 1real <==> n
            == d)) by (nonlinear_arith)
            requires
                d > 0real,
                0real <= n <= d,
        ;
    }
}

/// A product of integers is the product of the same numbers taken as reals.
pub proof fn product_as_real(a: int, b: int)
    ensures
        (a * b) as real == (a as real) * (b as real),
{
    assert((a * b) as real == (a as real) * (b as real)) by (nonlinear_arith);
}

} // verus!
