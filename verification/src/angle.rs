//! Angles in radians, and how they wrap around the circle.
//!
//! A full turn is `TAU` billionths of a radian, exactly twice `PI`, so the
//! half-open interval from `-PI` (excluded) up to `PI` (included) holds one
//! representative of every angle.

use vstd::prelude::*;
use crate::scalar::{Scalar, FRAC_PI_2, PI, TAU};

verus! {

/// The raw value of the default margin that keeps the pitch off the poles.
pub const ANGLE_EPSILON: i64 = 1_953_125;

/// Whether `x` lies in the interval of wrapped angles: above `-PI`, at most `PI`.
pub open spec fn is_wrapped(x: int) -> bool {
    -PI < x <= PI
}

/// The angle in the wrapped interval that differs from `x` by whole turns.
pub open spec fn wrap_angle(x: int) -> int {
    (x + PI - 1) % (TAU as int) - PI + 1
}

/// `wrap_angle` lands in the wrapped interval, moves its argument by a whole
/// number of turns, and leaves a wrapped angle where it is.
pub proof fn lemma_wrap_angle(x: int)
    ensures
        is_wrapped(wrap_angle(x)),
        (x - wrap_angle(x)) % (TAU as int) == 0,
        is_wrapped(x) ==> wrap_angle(x) == x,
{
    let t = TAU as int;
    let shifted = x + PI - 1;
    let q = shifted / t;
    let r = shifted % t;
    assert(shifted == t * q + r) by {
        vstd::arithmetic::div_mod::lemma_fundamental_div_mod(shifted, t);
    }
    assert(x - wrap_angle(x) == t * q);
    assert((t * q) % t == 0) by {
        vstd::arithmetic::div_mod::lemma_mod_multiples_basic(q, t);
        vstd::arithmetic::mul::lemma_mul_is_commutative(t, q);
    }
    if is_wrapped(x) {
        assert(0 <= shifted < t);
        vstd::arithmetic::div_mod::lemma_small_mod(shifted as nat, t as nat);
    }
}

/// Only one angle of the wrapped interval differs from `x` by whole turns.
pub proof fn lemma_wrap_angle_unique(x: int, r: int)
    requires
        is_wrapped(r),
        (x - r) % (TAU as int) == 0,
    ensures
        r == wrap_angle(x),
{
    let t = TAU as int;
    let w = wrap_angle(x);
    lemma_wrap_angle(x);
    let k1 = (x - r) / t;
    let k2 = (x - w) / t;
    vstd::arithmetic::div_mod::lemma_fundamental_div_mod(x - r, t);
    vstd::arithmetic::div_mod::lemma_fundamental_div_mod(x - w, t);
    assert(w - r == t * k1 - t * k2);
    assert(t * k1 - t * k2 == t * (k1 - k2)) by (nonlinear_arith);
    assert(-t < w - r < t);
    assert(k1 - k2 == 0) by (nonlinear_arith)
        requires
            -t < t * (k1 - k2) < t,
            t > 0,
    ;
}

/// Wraps a wide angle into the wrapped interval.
fn wrap_wide(x: i128) -> (s: Scalar)
    requires
        -0x1_0000_0000_0000_0000 <= x <= 0x1_0000_0000_0000_0000,
    ensures
        s@ == wrap_angle(x as int),
        is_wrapped(s@),
{
    let turn: i128 = TAU as i128;
    let shifted: i128 = x + (PI as i128) - 1;
    let mut r: i128 = shifted % turn;
    if r < 0 {
        r = r + turn;
    }
    proof {
        lemma_wrap_angle(x as int);
    }
    let wrapped: i128 = r - (PI as i128) + 1;
    Scalar { raw: wrapped as i64 }
}

impl Scalar {
    /// Half a turn.
    pub fn pi() -> (s: Scalar)
        ensures
            s@ == PI,
    {
        Scalar { raw: PI }
    }

    /// A quarter turn.
    pub fn frac_pi_2() -> (s: Scalar)
        ensures
            s@ == FRAC_PI_2,
    {
        Scalar { raw: FRAC_PI_2 }
    }

    /// The default margin between the pitch and the poles.
    pub fn angle_epsilon() -> (s: Scalar)
        ensures
            s@ == ANGLE_EPSILON,
    {
        Scalar { raw: ANGLE_EPSILON }
    }

    /// This angle, wrapped into the interval above `-PI` and up to `PI`.
    pub fn wrapped(self) -> (s: Scalar)
        ensures
            s@ == wrap_angle(self@),
            is_wrapped(s@),
    {
        wrap_wide(self.raw as i128)
    }

    /// The angle `self - rhs`, taken exactly and then wrapped.
    pub fn minus_wrapped(self, rhs: Scalar) -> (s: Scalar)
        ensures
            s@ == wrap_angle(self@ - rhs@),
            is_wrapped(s@),
    {
        wrap_wide(self.raw as i128 - rhs.raw as i128)
    }
}

} // verus!
