//! Vectors of fixed-point numbers.

use vstd::prelude::*;
use crate::scalar::{clamp_int, Scalar, ONE};

verus! {

/// A vector in the plane.
#[derive(Clone, Copy, Debug, PartialEq, Eq, Structural)]
pub struct Vector2 {
    pub x: Scalar,
    pub y: Scalar,
}

/// A vector in space. The up axis is `y`; forward is the negative `z` axis.
#[derive(Clone, Copy, Debug, PartialEq, Eq, Structural)]
pub struct Vector3 {
    pub x: Scalar,
    pub y: Scalar,
    pub z: Scalar,
}

impl Vector2 {
    /// The vector with both coordinates zero.
    pub open spec fn spec_zero() -> Vector2 {
        Vector2 { x: Scalar { raw: 0 }, y: Scalar { raw: 0 } }
    }

    /// Each coordinate multiplied by `factor`.
    pub open spec fn spec_scaled(self, factor: Scalar) -> Vector2 {
        Vector2 { x: self.x.spec_times(factor), y: self.y.spec_times(factor) }
    }

    /// Each coordinate held between minus one and one.
    pub open spec fn spec_clamped_to_unit(self) -> Vector2 {
        Vector2 {
            x: Scalar { raw: clamp_int(self.x@, -ONE, ONE as int) as i64 },
            y: Scalar { raw: clamp_int(self.y@, -ONE, ONE as int) as i64 },
        }
    }

    /// The vector with the given coordinates.
    pub fn new(x: Scalar, y: Scalar) -> (v: Vector2)
        ensures
            v == (Vector2 { x, y }),
    {
        Vector2 { x, y }
    }

    /// The vector with both coordinates zero.
    pub fn zero() -> (v: Vector2)
        ensures
            v == Vector2::spec_zero(),
    {
        Vector2 { x: Scalar::zero(), y: Scalar::zero() }
    }

    /// Whether both coordinates are zero.
    pub fn is_zero(self) -> (b: bool)
        ensures
            b == (self == Vector2::spec_zero()),
    {
        self.x.is_zero() && self.y.is_zero()
    }

    /// Multiplies each coordinate by `factor`.
    pub fn scaled(self, factor: Scalar) -> (v: Vector2)
        ensures
            v == self.spec_scaled(factor),
    {
        Vector2 { x: self.x.times(factor), y: self.y.times(factor) }
    }

    /// Holds each coordinate between minus one and one.
    pub fn clamped_to_unit(self) -> (v: Vector2)
        ensures
            v == self.spec_clamped_to_unit(),
            -ONE <= v.x@ <= ONE,
            -ONE <= v.y@ <= ONE,
    {
        let lo = Scalar::from_raw(-ONE);
        let hi = Scalar::from_raw(ONE);
        Vector2 { x: self.x.clamp(lo, hi), y: self.y.clamp(lo, hi) }
    }
}

impl Vector3 {
    /// The vector with the given coordinates.
    pub fn new(x: Scalar, y: Scalar, z: Scalar) -> (v: Vector3)
        ensures
            v == (Vector3 { x, y, z }),
    {
        Vector3 { x, y, z }
    }

    /// The vector with all coordinates zero.
    pub fn zero() -> (v: Vector3)
        ensures
            v.x@ == 0,
            v.y@ == 0,
            v.z@ == 0,
    {
        Vector3 { x: Scalar::zero(), y: Scalar::zero(), z: Scalar::zero() }
    }
}

} // verus!
