//! Half-lines through space.
use crate::geometry::normal::is_unit_bounded;
use crate::geometry::point::Point;
use crate::geometry::vector::Vector;
use crate::scalar::Scalar;
use vstd::prelude::*;

verus! {

/// A half-line: the points `origin + direction * t` for `t` from zero up.
/// Callers are expected to pass a direction of unit length; nothing here
/// depends on it.
#[derive(Clone, Copy, Debug, PartialEq, Eq, Structural)]
pub struct Ray {
    pub origin: Point,
    pub direction: Vector,
}

impl Ray {
    /// No component of the direction is beyond one in magnitude, as holds
    /// of every direction that was normalised.
    pub open spec fn has_bounded_direction(self) -> bool {
        is_unit_bounded(self.direction.x) && is_unit_bounded(self.direction.y)
            && is_unit_bounded(self.direction.z)
    }

    /// The point of the ray at parameter `t`.
    pub open spec fn at_spec(self, t: Scalar) -> Point {
        self.origin.add_spec(self.direction.scale_spec(t))
    }

    /// The ray from `origin` in the given direction.
    pub fn new(origin: Point, direction: Vector) -> (r: Ray)
        ensures
            r == (Ray { origin, direction }),
    {
        Ray { origin, direction }
    }

    /// The point of the ray at parameter `t`.
    pub fn at(&self, t: Scalar) -> (r: Point)
        ensures
            r == self.at_spec(t),
    {
        self.origin.add(self.direction.scale(t))
    }
}

} // verus!
