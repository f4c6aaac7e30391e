//! Decimal fixed-point scalars: every quantity of the simulation is a whole
//! number of millionths.

use vstd::prelude::*;

verus! {

/// Raw units in one whole unit.
pub const SCALE: i64 = 1_000_000;

/// The quotient of `a` by a positive `d`, rounded toward zero.
pub open spec fn trunc_div(a: int, d: int) -> int {
    if a >= 0 {
        a / d
    } else {
        -((-a) / d)
    }
}

/// `a` brought into the range of an `i64`: values beyond it stick to the
/// nearest end.
pub open spec fn saturate(a: int) -> int {
    if a < i64::MIN {
        i64::MIN as int
    } else if a > i64::MAX {
        i64::MAX as int
    } else {
        a
    }
}

/// A scalar held as a count of millionths.
#[derive(Clone, Copy, Debug, PartialEq, Eq, Structural)]
pub struct Fixed {
    pub raw: i64,
}

impl View for Fixed {
    type V = int;

    open spec fn view(&self) -> int {
        self.raw as int
    }
}

impl Fixed {
    /// The scalar that is `raw` millionths.
    pub fn from_raw(raw: i64) -> (r: Fixed)
        ensures
            r@ == raw,
    {
        Fixed { raw }
    }

    /// The whole number `n` as a scalar.
    pub fn from_int(n: i32) -> (r: Fixed)
        ensures
            r@ == n * SCALE,
    {
        Fixed { raw: (n as i64) * SCALE }
    }

    /// Zero.
    pub fn zero() -> (r: Fixed)
        ensures
            r@ == 0,
    {
        Fixed { raw: 0 }
    }

    /// The count of millionths.
    pub fn raw(self) -> (r: i64)
        ensures
            r == self@,
    {
        self.raw
    }

    /// The sum, held at the ends of the range where it would leave it.
    pub fn saturating_add(self, rhs: Fixed) -> (r: Fixed)
        ensures
            r@ == saturate(self@ + rhs@),
    {
        Fixed { raw: saturate_to_i64(self.raw as i128 + rhs.raw as i128) }
    }

    /// Half of the scalar, rounded toward zero.
    pub fn half(self) -> (r: Fixed)
        ensures
            r@ == trunc_div(self@, 2),
    {
        Fixed { raw: self.raw / 2 }
    }
}

/// The `i64` nearest to `a`.
pub fn saturate_to_i64(a: i128) -> (r: i64)
    ensures
        r == saturate(a as int),
{
    if a < i64::MIN as i128 {
        i64::MIN
    } else if a > i64::MAX as i128 {
        i64::MAX
    } else {
        a as i64
    }
}

/// `a / d` rounded toward zero, for a positive divisor.
pub fn trunc_div_i128(a: i128, d: i128) -> (r: i128)
    requires
        d > 0,
    ensures
        r == trunc_div(a as int, d as int),
{
    a / d
}

} // verus!
