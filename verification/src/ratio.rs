//! Exact fractions.
//!
//! Every length, position and scale factor of a chart is a rational number.
//! [`Frac`] is the mathematical value, with an unbounded numerator and
//! denominator; [`Ratio`] is what the executable code hands out, a numerator
//! over a positive denominator in machine integers.  Nothing is ever rounded:
//! the fields of a [`Ratio`] are exactly those of its view.

use vstd::prelude::*;

verus! {

/// A fraction `num / den` over the integers.
pub struct Frac {
    pub num: int,
    pub den: int,
}

impl Frac {
    /// A fraction is well formed when its denominator is positive.
    pub open spec fn wf(self) -> bool {
        self.den > 0
    }

    /// The whole number `n`.
    pub open spec fn of(n: int) -> Frac {
        Frac { num: n, den: 1 }
    }

    /// The sum of two fractions, over the product of their denominators.
    pub open spec fn plus(self, other: Frac) -> Frac {
        Frac { num: self.num * other.den + other.num * self.den, den: self.den * other.den }
    }

    /// The difference of two fractions, over the product of their denominators.
    pub open spec fn minus(self, other: Frac) -> Frac {
        Frac { num: self.num * other.den - other.num * self.den, den: self.den * other.den }
    }

    /// The product of two fractions.
    pub open spec fn times(self, other: Frac) -> Frac {
        Frac { num: self.num * other.num, den: self.den * other.den }
    }

    /// The fraction divided by the whole number `k`.
    pub open spec fn over(self, k: int) -> Frac {
        Frac { num: self.num, den: self.den * k }
    }

    /// The quotient of two fractions; meant for a positive `other`.
    pub open spec fn divided_by(self, other: Frac) -> Frac {
        Frac { num: self.num * other.den, den: self.den * other.num }
    }

    /// Both fractions denote the same number.
    pub open spec fn same(self, other: Frac) -> bool {
        self.num * other.den == other.num * self.den
    }

    /// `self <= other` as numbers; meant for well-formed fractions.
    pub open spec fn le(self, other: Frac) -> bool {
        self.num * other.den <= other.num * self.den
    }

    /// `self < other` as numbers; meant for well-formed fractions.
    pub open spec fn lt(self, other: Frac) -> bool {
        self.num * other.den < other.num * self.den
    }

    /// The fraction denotes the number one.
    pub open spec fn is_one(self) -> bool {
        self.num == self.den
    }

    /// The fraction denotes a number in the half-open interval `(0, 1]`.
    pub open spec fn is_unit_fraction(self) -> bool {
        0 < self.num <= self.den
    }

    /// The fraction denotes a number in the closed interval `[0, 1]`.
    pub open spec fn within_unit(self) -> bool {
        0 <= self.num <= self.den && self.den > 0
    }
}

/// An exact fraction in machine integers.  Its denominator is always positive.
#[derive(Clone, Copy, Debug, PartialEq, Eq)]
pub struct Ratio {
    num: i128,
    den: i128,
}

impl View for Ratio {
    type V = Frac;

    closed spec fn view(&self) -> Frac {
        Frac { num: self.num as int, den: self.den as int }
    }
}

impl Ratio {
    #[verifier::type_invariant]
    spec fn inv(self) -> bool {
        self.den > 0
    }

    /// The fraction `num / den`, or `None` when `den` is not positive.
    pub fn new(num: i128, den: i128) -> (r: Option<Ratio>)
        ensures
            r.is_some() <==> den > 0,
            r matches Some(q) ==> q@ == (Frac { num: num as int, den: den as int }),
    {
        if den > 0 {
            Some(Ratio { num, den })
        } else {
            None
        }
    }

    pub(crate) fn from_parts(num: i128, den: i128) -> (r: Ratio)
        requires
            den > 0,
        ensures
            r@ == (Frac { num: num as int, den: den as int }),
    {
        Ratio { num, den }
    }

    /// The whole number zero.
    pub fn zero() -> (r: Ratio)
        ensures
            r@ == Frac::of(0),
    {
        Ratio { num: 0, den: 1 }
    }

    /// The whole number one.
    pub fn one() -> (r: Ratio)
        ensures
            r@ == Frac::of(1),
    {
        Ratio { num: 1, den: 1 }
    }

    /// The numerator.
    pub fn num(&self) -> (n: i128)
        ensures
            n == self@.num,
    {
        self.num
    }

    /// The denominator, which is positive.
    pub fn den(&self) -> (d: i128)
        ensures
            d == self@.den,
            d > 0,
    {
        proof {
            use_type_invariant(self);
        }
        self.den
    }
}

/// A fraction whose numerator and denominator are scaled by the same nonzero
/// factor denotes the same number.
pub proof fn lemma_same_scaled(f: Frac, k: int)
    ensures
        (Frac { num: f.num * k, den: f.den * k }).same(f),
{
    assert((f.num * k) * f.den == f.num * (f.den * k)) by (nonlinear_arith);
}

} // verus!
