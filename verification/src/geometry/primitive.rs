//! The closed set of shapes a scene can hold.
use crate::geometry::aligned_box::{law_hit_lies_on_surface, AlignedBox};
use crate::geometry::disk::Disk;
use crate::geometry::normal::Normal;
use crate::geometry::plane::Plane;
use crate::geometry::point::Point;
use crate::geometry::ray::Ray;
use crate::geometry::sphere::Sphere;
use crate::geometry::triangle::Triangle;
use crate::geometry::{Intersection, Transformation};
use vstd::prelude::*;

verus! {

/// Any one of the shapes.
#[derive(Clone, Copy, Debug, PartialEq, Eq, Structural)]
pub enum Primitive {
    Sphere(Sphere),
    Plane(Plane),
    Disk(Disk),
    Triangle(Triangle),
    AlignedBox(AlignedBox),
}

/// Whatever the shape and the ray, a hit lies at a parameter that is a
/// number not below zero.
pub proof fn law_hits_are_valid(primitive: Primitive, ray: Ray)
    ensures
        primitive.intersect_spec(ray).is_valid(),
{
    reveal(Primitive::intersect_spec);
}

/// Where a ray whose direction has no component beyond one in magnitude
/// is reported to meet a shape, the shape has a surface normal.
pub proof fn law_hit_has_normal(primitive: Primitive, ray: Ray)
    requires
        ray.has_bounded_direction(),
    ensures
        primitive.intersect_spec(ray) matches Intersection::Intersect(t) ==> primitive.normal_spec(
            ray.at_spec(t),
        ) is Some,
{
    reveal(Primitive::intersect_spec);
    reveal(Primitive::normal_spec);
    if let Primitive::AlignedBox(b) = primitive {
        law_hit_lies_on_surface(b, ray);
    }
}

impl Primitive {
    /// Where the ray meets the shape.
    #[verifier::opaque]
    pub open spec fn intersect_spec(self, ray: Ray) -> Intersection {
        match self {
            Primitive::Sphere(s) => s.intersect_spec(ray),
            Primitive::Plane(p) => p.intersect_spec(ray),
            Primitive::Disk(d) => d.intersect_spec(ray),
            Primitive::Triangle(t) => t.intersect_spec(ray),
            Primitive::AlignedBox(b) => b.intersect_spec(ray),
        }
    }

    /// The surface normal at a point, for every point at which the shape
    /// has one. Only a box has none at some points: at those that lie on
    /// none of its faces.
    #[verifier::opaque]
    pub open spec fn normal_spec(self, point: Point) -> Option<Normal> {
        match self {
            Primitive::Sphere(s) => Some(s.normal_at_point_spec(point)),
            Primitive::Plane(p) => Some(p.normal),
            Primitive::Disk(d) => Some(d.normal),
            Primitive::Triangle(t) => Some(t.normal_spec()),
            Primitive::AlignedBox(b) => b.face_normal_spec(point),
        }
    }

    /// Whether the shape can be transformed: spheres and triangles can.
    pub open spec fn is_transformable(self) -> bool {
        self is Sphere || self is Triangle
    }

    /// The shape after a transformation; itself where it cannot be
    /// transformed.
    pub open spec fn transform_spec(self, transformation: Transformation) -> Primitive {
        match self {
            Primitive::Sphere(s) => Primitive::Sphere(s.transform_spec(transformation)),
            Primitive::Triangle(t) => Primitive::Triangle(t.transform_spec(transformation)),
            _ => self,
        }
    }

    /// The nearest point in front of the ray's origin at which the ray
    /// meets the shape.
    pub fn intersect(&self, ray: &Ray) -> (r: Intersection)
        ensures
            r == self.intersect_spec(*ray),
            r.is_valid(),
    {
        proof {
            reveal(Primitive::intersect_spec);
        }
        match self {
            Primitive::Sphere(s) => s.intersect(ray),
            Primitive::Plane(p) => p.intersect(ray),
            Primitive::Disk(d) => d.intersect(ray),
            Primitive::Triangle(t) => t.intersect(ray),
            Primitive::AlignedBox(b) => b.intersect(ray),
        }
    }

    /// The surface normal at a point, if the shape has one there.
    pub fn try_normal_at_point(&self, point: &Point, intersection: Intersection) -> (r: Option<
        Normal,
    >)
        ensures
            r == self.normal_spec(*point),
    {
        proof {
            reveal(Primitive::normal_spec);
        }
        match self {
            Primitive::Sphere(s) => Some(s.normal_at_point(point, intersection)),
            Primitive::Plane(p) => Some(p.normal_at_point(point)),
            Primitive::Disk(d) => Some(d.normal_at_point(point)),
            Primitive::Triangle(t) => Some(t.normal_at_point(point)),
            Primitive::AlignedBox(b) => b.face_normal(point),
        }
    }

    /// The surface normal at a point of the shape's surface.
    pub fn normal_at_point(&self, point: &Point, intersection: Intersection) -> (r: Normal)
        requires
            self.normal_spec(*point) is Some,
        ensures
            Some(r) == self.normal_spec(*point),
    {
        proof {
            reveal(Primitive::normal_spec);
        }
        match self {
            Primitive::Sphere(s) => s.normal_at_point(point, intersection),
            Primitive::Plane(p) => p.normal_at_point(point),
            Primitive::Disk(d) => d.normal_at_point(point),
            Primitive::Triangle(t) => t.normal_at_point(point),
            Primitive::AlignedBox(b) => b.normal_at_point(point, intersection),
        }
    }

    /// Applies a transformation to a shape that can be transformed, and
    /// says whether it could.
    pub fn transform(&mut self, transformation: Transformation) -> (applied: bool)
        ensures
            applied == old(self).is_transformable(),
            *final(self) == old(self).transform_spec(transformation),
    {
        match self {
            Primitive::Sphere(s) => {
                let mut sphere: Sphere = *s;
                sphere.transform(transformation);
                *self = Primitive::Sphere(sphere);
                true
            },
            Primitive::Triangle(t) => {
                let mut triangle: Triangle = *t;
                triangle.transform(transformation);
                *self = Primitive::Triangle(triangle);
                true
            },
            _ => false,
        }
    }
}

} // verus!
