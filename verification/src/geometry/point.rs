//! Absolute positions in space.
use crate::geometry::vector::Vector;
use crate::scalar::Scalar;
use vstd::prelude::*;

verus! {

/// A position in world space.
#[derive(Clone, Copy, Debug, PartialEq, Eq, Structural)]
pub struct Point {
    pub x: Scalar,
    pub y: Scalar,
    pub z: Scalar,
}

impl Point {
    /// Every coordinate is a number.
    pub open spec fn is_finite(self) -> bool {
        self.x is Finite && self.y is Finite && self.z is Finite
    }

    /// The displacement that leads from the origin to this point.
    pub open spec fn to_vector_spec(self) -> Vector {
        Vector { x: self.x, y: self.y, z: self.z }
    }

    /// The point reached from this one by the displacement `other`.
    pub open spec fn add_spec(self, other: Vector) -> Point {
        Point {
            x: self.x.add_spec(other.x),
            y: self.y.add_spec(other.y),
            z: self.z.add_spec(other.z),
        }
    }

    /// The displacement that leads from `other` to this point.
    pub open spec fn sub_spec(self, other: Point) -> Vector {
        Vector {
            x: self.x.sub_spec(other.x),
            y: self.y.sub_spec(other.y),
            z: self.z.sub_spec(other.z),
        }
    }

    /// The point with the given coordinates.
    pub fn new(x: Scalar, y: Scalar, z: Scalar) -> (r: Point)
        ensures
            r == (Point { x, y, z }),
    {
        Point { x, y, z }
    }

    /// The displacement that leads from the origin to this point.
    pub fn to_vector(&self) -> (r: Vector)
        ensures
            r == self.to_vector_spec(),
    {
        Vector { x: self.x, y: self.y, z: self.z }
    }

    /// The point reached from this one by the displacement `other`.
    pub fn add(self, other: Vector) -> (r: Point)
        ensures
            r == self.add_spec(other),
    {
        Point { x: self.x.add(other.x), y: self.y.add(other.y), z: self.z.add(other.z) }
    }

    /// The displacement that leads from `other` to this point.
    pub fn sub(self, other: Point) -> (r: Vector)
        ensures
            r == self.sub_spec(other),
    {
        Vector { x: self.x.sub(other.x), y: self.y.sub(other.y), z: self.z.sub(other.z) }
    }
}

impl From<Vector> for Point {
    fn from(vector: Vector) -> (r: Point) {
        Point { x: vector.x, y: vector.y, z: vector.z }
    }
}

impl vstd::std_specs::convert::FromSpecImpl<Vector> for Point {
    open spec fn obeys_from_spec() -> bool {
        true
    }

    open spec fn from_spec(vector: Vector) -> Point {
        Point { x: vector.x, y: vector.y, z: vector.z }
    }
}

} // verus!
