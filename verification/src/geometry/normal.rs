//! Unit surface orientations.
use crate::geometry::vector::Vector;
use crate::scalar::{Scalar, ONE};
use vstd::prelude::*;

verus! {

/// A surface orientation, meant to have unit length. What is enforced is
/// weaker: each component is a number between minus one and one.
#[derive(Clone, Copy, Debug, PartialEq, Eq, Structural)]
pub struct Normal {
    pub x: Scalar,
    pub y: Scalar,
    pub z: Scalar,
}

/// Whether a scalar is a number between minus one and one.
pub open spec fn is_unit_bounded(s: Scalar) -> bool {
    s is Finite && -ONE <= s.raw() <= ONE
}

impl Normal {
    /// Every component is a number between minus one and one.
    pub open spec fn wf(self) -> bool {
        is_unit_bounded(self.x) && is_unit_bounded(self.y) && is_unit_bounded(self.z)
    }

    /// The normal all of whose components are zero: the defined result of
    /// normalising what has no direction.
    pub open spec fn zero_spec() -> Normal {
        Normal { x: Scalar::Finite(0), y: Scalar::Finite(0), z: Scalar::Finite(0) }
    }

    /// The dot product.
    pub open spec fn dot_spec(self, other: Normal) -> Scalar {
        self.x.mul_spec(other.x).add_spec(self.y.mul_spec(other.y)).add_spec(
            self.z.mul_spec(other.z),
        )
    }

    /// The vector with each component multiplied by `factor`.
    pub open spec fn mul_spec(self, factor: Scalar) -> Vector {
        Vector {
            x: self.x.mul_spec(factor),
            y: self.y.mul_spec(factor),
            z: self.z.mul_spec(factor),
        }
    }

    /// The normal with the given components, each of which has to be a
    /// number between minus one and one.
    pub fn new(x: Scalar, y: Scalar, z: Scalar) -> (r: Normal)
        requires
            is_unit_bounded(x),
            is_unit_bounded(y),
            is_unit_bounded(z),
        ensures
            r == (Normal { x, y, z }),
            r.wf(),
    {
        Normal { x, y, z }
    }

    /// The zero normal.
    pub fn zero() -> (r: Normal)
        ensures
            r == Normal::zero_spec(),
            r.wf(),
    {
        Normal { x: Scalar::Finite(0), y: Scalar::Finite(0), z: Scalar::Finite(0) }
    }

    /// The dot product.
    pub fn dot(&self, other: Normal) -> (r: Scalar)
        ensures
            r == self.dot_spec(other),
    {
        self.x.mul(other.x).add(self.y.mul(other.y)).add(self.z.mul(other.z))
    }

    /// The vector along the normal that is `factor` times as long.
    pub fn mul(self, factor: Scalar) -> (r: Vector)
        ensures
            r == self.mul_spec(factor),
    {
        Vector { x: self.x.mul(factor), y: self.y.mul(factor), z: self.z.mul(factor) }
    }
}

} // verus!
