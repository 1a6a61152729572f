use vstd::prelude::*;

verus! {

/// A mathematical fraction `num / den`, kept in the form it was built in
/// (it is never reduced).
pub ghost struct Frac {
    pub num: int,
    pub den: int,
}

/// The fraction `num / den`.
pub open spec fn frac(num: int, den: int) -> Frac {
    Frac { num, den }
}

impl Frac {
    /// The denominator is positive.
    pub open spec fn wf(self) -> bool {
        self.den > 0
    }

    /// `self` and `other` stand for the same rational number.
    pub open spec fn same_value(self, other: Frac) -> bool {
        self.num * other.den == other.num * self.den
    }

    /// The product of two fractions, numerator by numerator.
    pub open spec fn mul(self, other: Frac) -> Frac {
        frac(self.num * other.num, self.den * other.den)
    }

    /// The quotient of two fractions.
    pub open spec fn div(self, other: Frac) -> Frac {
        frac(self.num * other.den, self.den * other.num)
    }

    /// The reciprocal.
    pub open spec fn inv(self) -> Frac {
        frac(self.den, self.num)
    }

    /// The difference of two fractions.
    pub open spec fn sub(self, other: Frac) -> Frac {
        frac(self.num * other.den - other.num * self.den, self.den * other.den)
    }
}

/// A fraction of machine integers, as handed to a shader once divided out.
#[derive(Clone, Copy, Debug, PartialEq, Eq)]
pub struct Ratio {
    pub num: i128,
    pub den: i128,
}

impl View for Ratio {
    type V = Frac;

    open spec fn view(&self) -> Frac {
        frac(self.num as int, self.den as int)
    }
}

} // verus!
