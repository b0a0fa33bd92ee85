//! Fixed-point numbers: a `Scalar` counts billionths of a unit in an `i64`.
//!
//! Sums and differences saturate at the ends of the `i64` range. A product is
//! the exact product rounded toward zero to a whole number of billionths, then
//! saturated.

use vstd::prelude::*;

verus! {

/// The raw value of the number one.
pub const ONE: i64 = 1_000_000_000;

/// The raw value of half a turn, in radians. It lies just below the real pi.
pub const PI: i64 = 3_141_592_653;

/// The raw value of a full turn: exactly twice `PI`.
pub const TAU: i64 = 6_283_185_306;

/// The raw value of a quarter turn, rounded down.
pub const FRAC_PI_2: i64 = 1_570_796_326;

/// The absolute value of an integer.
pub open spec fn abs(x: int) -> int {
    if x < 0 {
        -x
    } else {
        x
    }
}

/// Whether `x` can be held in a `Scalar` without saturating.
pub open spec fn in_range(x: int) -> bool {
    i64::MIN <= x <= i64::MAX
}

/// The integer nearest to `x` within the `i64` range.
pub open spec fn saturate(x: int) -> i64 {
    if x > i64::MAX {
        i64::MAX
    } else if x < i64::MIN {
        i64::MIN
    } else {
        x as i64
    }
}

/// The quotient of `a` by a positive `b`, rounded toward zero.
pub open spec fn div_toward_zero(a: int, b: int) -> int
    recommends
        b > 0,
{
    if a >= 0 {
        a / b
    } else {
        -((-a) / b)
    }
}

/// `x` held between `lo` and `hi`.
pub open spec fn clamp_int(x: int, lo: int, hi: int) -> int
    recommends
        lo <= hi,
{
    if x < lo {
        lo
    } else if x > hi {
        hi
    } else {
        x
    }
}

/// A fixed-point number: `raw` billionths.
#[derive(Clone, Copy, Debug, PartialEq, Eq, Structural)]
pub struct Scalar {
    pub raw: i64,
}

impl View for Scalar {
    type V = int;

    /// The number of billionths.
    open spec fn view(&self) -> int {
        self.raw as int
    }
}

impl Scalar {
    /// The saturated sum.
    pub open spec fn spec_plus(self, rhs: Scalar) -> Scalar {
        Scalar { raw: saturate(self.raw + rhs.raw) }
    }

    /// The saturated difference.
    pub open spec fn spec_minus(self, rhs: Scalar) -> Scalar {
        Scalar { raw: saturate(self.raw - rhs.raw) }
    }

    /// The product, rounded toward zero and saturated.
    pub open spec fn spec_times(self, rhs: Scalar) -> Scalar {
        Scalar { raw: saturate(div_toward_zero(self.raw * rhs.raw, ONE as int)) }
    }

    /// `self` held between `lo` and `hi`.
    pub open spec fn spec_clamp(self, lo: Scalar, hi: Scalar) -> Scalar {
        Scalar { raw: clamp_int(self.raw as int, lo.raw as int, hi.raw as int) as i64 }
    }

    /// The number of `raw` billionths.
    pub fn from_raw(raw: i64) -> (s: Scalar)
        ensures
            s.raw == raw,
    {
        Scalar { raw }
    }

    /// The whole number `n`.
    pub fn from_int(n: i32) -> (s: Scalar)
        ensures
            s@ == n * ONE,
    {
        Scalar { raw: (n as i64) * ONE }
    }

    /// Zero.
    pub fn zero() -> (s: Scalar)
        ensures
            s == (Scalar { raw: 0 }),
    {
        Scalar { raw: 0 }
    }

    /// Whether this is zero.
    pub fn is_zero(self) -> (b: bool)
        ensures
            b == (self@ == 0),
    {
        self.raw == 0
    }

    /// Adds, saturating at the ends of the range.
    pub fn plus(self, rhs: Scalar) -> (s: Scalar)
        ensures
            s == self.spec_plus(rhs),
    {
        let sum: i128 = self.raw as i128 + rhs.raw as i128;
        Scalar { raw: saturate_i128(sum) }
    }

    /// Subtracts, saturating at the ends of the range.
    pub fn minus(self, rhs: Scalar) -> (s: Scalar)
        ensures
            s == self.spec_minus(rhs),
    {
        let diff: i128 = self.raw as i128 - rhs.raw as i128;
        Scalar { raw: saturate_i128(diff) }
    }

    /// Multiplies, rounding toward zero and saturating.
    pub fn times(self, rhs: Scalar) -> (s: Scalar)
        ensures
            s == self.spec_times(rhs),
    {
        let a: i128 = self.raw as i128;
        let b: i128 = rhs.raw as i128;
        proof {
            lemma_product_fits(a as int, b as int);
        }
        let product: i128 = a * b;
        let quotient: i128 = product / (ONE as i128);
        Scalar { raw: saturate_i128(quotient) }
    }

    /// Holds `self` between `lo` and `hi`.
    pub fn clamp(self, lo: Scalar, hi: Scalar) -> (s: Scalar)
        requires
            lo@ <= hi@,
        ensures
            s == self.spec_clamp(lo, hi),
            lo@ <= s@ <= hi@,
    {
        if self.raw < lo.raw {
            lo
        } else if self.raw > hi.raw {
            hi
        } else {
            self
        }
    }
}

/// Brings a wide integer into the `i64` range.
fn saturate_i128(x: i128) -> (r: i64)
    ensures
        r == saturate(x as int),
{
    if x > i64::MAX as i128 {
        i64::MAX
    } else if x < i64::MIN as i128 {
        i64::MIN
    } else {
        x as i64
    }
}

/// The product of two `i64` values fits an `i128`.
proof fn lemma_product_fits(a: int, b: int)
    requires
        i64::MIN <= a <= i64::MAX,
        i64::MIN <= b <= i64::MAX,
    ensures
        i128::MIN < a * b < i128::MAX,
{
    assert(-0x4000_0000_0000_0000_0000_0000_0000_0000 <= a * b
        <= 0x4000_0000_0000_0000_0000_0000_0000_0000) by (nonlinear_arith)
        requires
            -0x8000_0000_0000_0000 <= a <= 0x8000_0000_0000_0000,
            -0x8000_0000_0000_0000 <= b <= 0x8000_0000_0000_0000,
    ;
}

} // verus!
