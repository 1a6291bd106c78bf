//! Exact fractions, for the constants of the scene.

use vstd::prelude::*;

verus! {

/// The fraction `num / den`. Every fraction that the crate hands out has a
/// positive denominator.
#[derive(Clone, Copy, Debug, PartialEq, Eq, Structural)]
pub struct Ratio {
    pub num: i32,
    pub den: i32,
}

impl Ratio {
    /// The denominator is positive.
    pub open spec fn wf(self) -> bool {
        self.den > 0
    }

    /// `self < other`, for fractions with positive denominators.
    pub open spec fn lt(self, other: Ratio) -> bool {
        self.num * other.den < other.num * self.den
    }

    /// `self <= other`, for fractions with positive denominators.
    pub open spec fn le(self, other: Ratio) -> bool {
        self.num * other.den <= other.num * self.den
    }

    /// The whole number `n`.
    pub open spec fn whole(n: i32) -> Ratio {
        Ratio { num: n, den: 1 }
    }

    /// Whether `self < other`, by cross multiplication.
    pub fn less_than(&self, other: &Ratio) -> (b: bool)
        ensures
            b == self.lt(*other),
    {
        let a: i64 = self.num as i64;
        let b: i64 = other.den as i64;
        let c: i64 = other.num as i64;
        let d: i64 = self.den as i64;
        assert(-0x4000_0000_0000_0000 <= a * b <= 0x4000_0000_0000_0000) by (nonlinear_arith)
            requires
                -0x8000_0000 <= a <= 0x7fff_ffff,
                -0x8000_0000 <= b <= 0x7fff_ffff,
        ;
        assert(-0x4000_0000_0000_0000 <= c * d <= 0x4000_0000_0000_0000) by (nonlinear_arith)
            requires
                -0x8000_0000 <= c <= 0x7fff_ffff,
                -0x8000_0000 <= d <= 0x7fff_ffff,
        ;
        a * b < c * d
    }
}

/// `value` raised to `min` if it is below, then lowered to `max` if it is
/// above.
pub open spec fn clamped(value: Ratio, min: Ratio, max: Ratio) -> Ratio {
    let raised = if value.lt(min) {
        min
    } else {
        value
    };
    if max.lt(raised) {
        max
    } else {
        raised
    }
}

/// Within `min <= max`, the result lies between the two bounds.
pub proof fn clamped_is_within(value: Ratio, min: Ratio, max: Ratio)
    requires
        value.wf(),
        min.wf(),
        max.wf(),
        min.le(max),
    ensures
        min.le(clamped(value, min, max)),
        clamped(value, min, max).le(max),
        clamped(value, min, max).wf(),
{
}

} // verus!
