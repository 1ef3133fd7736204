//! Sources of illumination.
use crate::geometry::normal::Normal;
use crate::geometry::point::Point;
use crate::geometry::vector::Vector;
use crate::scalar::Scalar;
use vstd::prelude::*;

verus! {

/// A source of light.
#[derive(Clone, Copy, Debug, PartialEq, Eq, Structural)]
pub enum Light {
    /// A source infinitely far away. The vector is the direction in which
    /// its light travels, the same everywhere.
    Directional(Vector),
    /// A source at a position in the scene.
    Point(Point),
}

impl Light {
    /// The direction from a surface point toward the light: against the
    /// direction of travel for a directional light, toward the position for
    /// a point light.
    pub open spec fn toward_spec(self, point: Point) -> Normal {
        match self {
            Light::Directional(direction) => direction.neg_spec().normalize_spec(),
            Light::Point(position) => position.sub_spec(point).normalize_spec(),
        }
    }

    /// What the light adds to the intensity of a surface point with the
    /// given normal: the cosine of the angle between the normal and the
    /// direction toward the light, and nothing where the light is behind
    /// the surface.
    pub open spec fn contribution_spec(self, normal: Normal, point: Point) -> Scalar {
        normal.dot_spec(self.toward_spec(point)).clamp_unit_spec()
    }

    /// A point light at the given position.
    pub fn new(position: Point) -> (r: Light)
        ensures
            r == Light::Point(position),
    {
        Light::Point(position)
    }

    /// A directional light whose light travels in the given direction.
    pub fn directional(direction: Vector) -> (r: Light)
        ensures
            r == Light::Directional(direction),
    {
        Light::Directional(direction)
    }

    /// The direction from a surface point toward the light.
    pub fn toward(&self, point: &Point) -> (r: Normal)
        ensures
            r == self.toward_spec(*point),
            r.wf(),
    {
        match self {
            Light::Directional(direction) => direction.neg().normalize(),
            Light::Point(position) => position.sub(*point).normalize(),
        }
    }

    /// What the light adds to the intensity of a surface point.
    pub fn contribution(&self, normal: Normal, point: &Point) -> (r: Scalar)
        ensures
            r == self.contribution_spec(normal, *point),
            r is Finite,
            0 <= r.raw() <= crate::scalar::ONE,
    {
        normal.dot(self.toward(point)).clamp_unit()
    }
}

} // verus!
