//! Points, vectors, normals, the transformations that move them, and the
//! shapes a ray can meet.
pub mod aligned_box;
pub mod disk;
pub mod matrix;
pub mod normal;
pub mod plane;
pub mod point;
pub mod primitive;
pub mod ray;
pub mod sphere;
pub mod triangle;
pub mod vector;

use crate::geometry::matrix::Matrix;
use crate::geometry::vector::Vector;
use crate::scalar::Scalar;
use vstd::prelude::*;

verus! {

/// One of the three axes of world space.
#[derive(Clone, Copy, Debug, PartialEq, Eq, Structural)]
pub enum Axis {
    X,
    Y,
    Z,
}

/// An angle of rotation, held as its cosine and its sine.
#[derive(Clone, Copy, Debug, PartialEq, Eq, Structural)]
pub struct Angle {
    pub cos: Scalar,
    pub sin: Scalar,
}

/// A change of position or size that can be applied to a shape or a camera.
#[derive(Clone, Copy, Debug, PartialEq, Eq, Structural)]
pub enum Transformation {
    /// Moves by the given displacement.
    Translation(Vector),
    /// Multiplies each axis by the matching component.
    Scale(Vector),
    /// Turns about the given axis by the given angle.
    Rotation(Axis, Angle),
}

/// The outcome of asking whether a ray meets a shape.
#[derive(Clone, Copy, Debug, PartialEq, Eq, Structural)]
pub enum Intersection {
    /// The ray meets the shape where its parameter has this value.
    Intersect(Scalar),
    /// The ray does not meet the shape.
    DoesNotIntersect,
}

impl Angle {
    /// The angle with the given cosine and sine.
    pub fn new(cos: Scalar, sin: Scalar) -> (r: Angle)
        ensures
            r == (Angle { cos, sin }),
    {
        Angle { cos, sin }
    }
}

impl Transformation {
    /// The 4x4 matrix that carries out the transformation.
    pub open spec fn to_matrix_spec(self) -> Matrix<4, 4> {
        match self {
            Transformation::Translation(v) => Matrix::<4, 4>::translation_spec(v),
            Transformation::Scale(v) => Matrix::<4, 4>::scale_spec(v),
            Transformation::Rotation(Axis::X, angle) => Matrix::<4, 4>::rotation_x_spec(angle),
            Transformation::Rotation(Axis::Y, angle) => Matrix::<4, 4>::rotation_y_spec(angle),
            Transformation::Rotation(Axis::Z, angle) => Matrix::<4, 4>::rotation_z_spec(angle),
        }
    }

    /// The 4x4 matrix that carries out the transformation.
    pub fn transformation_to_matrix(&self) -> (r: Matrix<4, 4>)
        ensures
            r == self.to_matrix_spec(),
    {
        match self {
            Transformation::Translation(v) => Matrix::<4, 4>::translation(*v),
            Transformation::Scale(v) => Matrix::<4, 4>::scale(*v),
            Transformation::Rotation(Axis::X, angle) => Matrix::<4, 4>::rotation_x(*angle),
            Transformation::Rotation(Axis::Y, angle) => Matrix::<4, 4>::rotation_y(*angle),
            Transformation::Rotation(Axis::Z, angle) => Matrix::<4, 4>::rotation_z(*angle),
        }
    }
}

impl Intersection {
    /// A hit lies at a parameter that is a number and not below zero: a
    /// point on the ray, in front of its origin or at it.
    pub open spec fn is_valid(self) -> bool {
        match self {
            Intersection::Intersect(t) => t is Finite && 0 <= t.raw(),
            Intersection::DoesNotIntersect => true,
        }
    }

    /// Whether the ray meets the shape.
    pub fn is_hit(&self) -> (r: bool)
        ensures
            r == (*self is Intersect),
    {
        match self {
            Intersection::Intersect(_) => true,
            Intersection::DoesNotIntersect => false,
        }
    }

    /// The parameter of a hit.
    pub fn parameter(&self) -> (r: Option<Scalar>)
        ensures
            r == match *self {
                Intersection::Intersect(t) => Some(t),
                Intersection::DoesNotIntersect => None,
            },
    {
        match self {
            Intersection::Intersect(t) => Some(*t),
            Intersection::DoesNotIntersect => None,
        }
    }
}

} // verus!
