//! Decimal fixed-point numbers with nine fractional digits.

use vstd::prelude::*;

verus! {

/// How many units of the last digit make one: a `Fixed` counts billionths.
pub const SCALE: i64 = 1_000_000_000;

/// A signed number held as a count of billionths, so that `4.5` is
/// `Fixed { nanos: 4_500_000_000 }`. A duration in seconds is then its
/// nanoseconds, an angle in radians its nanoradians.
#[derive(Clone, Copy, Debug, PartialEq, Eq, Structural)]
pub struct Fixed {
    pub nanos: i64,
}

impl View for Fixed {
    type V = int;

    /// The number of billionths.
    open spec fn view(&self) -> int {
        self.nanos as int
    }
}

/// `x` brought into the range that a `Fixed` can hold.
pub open spec fn saturate(x: int) -> int {
    if x < i64::MIN {
        i64::MIN as int
    } else if x > i64::MAX {
        i64::MAX as int
    } else {
        x
    }
}

/// The quotient of `a` by a positive `b`, rounded toward zero.
pub open spec fn div_toward_zero(a: int, b: int) -> int
    recommends
        b > 0,
{
    if a >= 0 {
        a / b
    } else {
        -((-a) / b)
    }
}

/// The number `t / 10`, for a `t` that is small enough to be held.
pub open spec fn tenths(t: int) -> Fixed {
    Fixed { nanos: (t * 100_000_000) as i64 }
}

/// The negation of `a` billionths, saturated.
pub open spec fn negated(a: int) -> int {
    saturate(-a)
}

/// The product of `a` billionths and `b` billionths, in billionths: rounded
/// toward zero, then saturated.
pub open spec fn product(a: int, b: int) -> int {
    saturate(div_toward_zero(a * b, SCALE as int))
}

impl Fixed {
    /// The number `t / 10`: `from_tenths(45)` is `4.5`.
    pub fn from_tenths(t: i32) -> (r: Fixed)
        ensures
            r == tenths(t as int),
            r@ == t * 100_000_000,
    {
        let wide: i64 = t as i64;
        Fixed { nanos: wide * 100_000_000 }
    }

    /// The number of `wide` billionths, saturated at the ends of the range.
    pub fn saturating_from(wide: i128) -> (r: Fixed)
        ensures
            r@ == saturate(wide as int),
    {
        if wide < i64::MIN as i128 {
            Fixed { nanos: i64::MIN }
        } else if wide > i64::MAX as i128 {
            Fixed { nanos: i64::MAX }
        } else {
            Fixed { nanos: wide as i64 }
        }
    }

    /// `-self`; the least value, which has no negation, gives the greatest.
    pub fn neg(self) -> (r: Fixed)
        ensures
            r@ == negated(self@),
    {
        if self.nanos == i64::MIN {
            Fixed { nanos: i64::MAX }
        } else {
            Fixed { nanos: -self.nanos }
        }
    }

    /// `self * other`, rounded toward zero and saturated at the ends of the
    /// range.
    pub fn times(self, other: Fixed) -> (r: Fixed)
        ensures
            r@ == product(self@, other@),
    {
        let a: i128 = self.nanos as i128;
        let b: i128 = other.nanos as i128;
        assert(-0x4000_0000_0000_0000_0000_0000_0000_0000 <= a * b
            <= 0x4000_0000_0000_0000_0000_0000_0000_0000) by (nonlinear_arith)
            requires
                -0x8000_0000_0000_0000 <= a <= 0x8000_0000_0000_0000,
                -0x8000_0000_0000_0000 <= b <= 0x8000_0000_0000_0000,
        ;
        let p: i128 = a * b;
        let scale: i128 = SCALE as i128;
        let q: i128 = if p >= 0 {
            p / scale
        } else {
            -((-p) / scale)
        };
        Fixed::saturating_from(q)
    }
}

} // verus!
