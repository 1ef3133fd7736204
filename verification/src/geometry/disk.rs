//! Flat circular disks.
use crate::geometry::normal::Normal;
use crate::geometry::plane::Plane;
use crate::geometry::point::Point;
use crate::geometry::ray::Ray;
use crate::geometry::Intersection;
use crate::scalar::Scalar;
use vstd::prelude::*;

verus! {

/// The part of the plane through `center`, perpendicular to `normal`, that
/// lies no further than `radius` from `center`.
#[derive(Clone, Copy, Debug, PartialEq, Eq, Structural)]
pub struct Disk {
    pub center: Point,
    pub radius: Scalar,
    pub normal: Normal,
}

impl Disk {
    /// The plane in which the disk lies.
    pub open spec fn plane_spec(self) -> Plane {
        Plane { normal: self.normal, center: self.center }
    }

    /// How far from the centre the ray is at parameter `t`.
    pub open spec fn distance_at(self, ray: Ray, t: Scalar) -> Scalar {
        ray.at_spec(t).to_vector_spec().sub_spec(self.center.to_vector_spec()).length_spec()
    }

    /// Where the ray meets the disk: where it meets the disk's plane, if that
    /// is no further from the centre than the radius.
    pub open spec fn intersect_spec(self, ray: Ray) -> Intersection {
        match self.plane_spec().intersect_spec(ray) {
            Intersection::Intersect(t) => if self.distance_at(ray, t).le_spec(self.radius) {
                Intersection::Intersect(t)
            } else {
                Intersection::DoesNotIntersect
            },
            Intersection::DoesNotIntersect => Intersection::DoesNotIntersect,
        }
    }

    /// The disk with the given centre, radius and normal.
    pub fn new(center: Point, radius: Scalar, normal: Normal) -> (r: Disk)
        ensures
            r == (Disk { center, radius, normal }),
    {
        Disk { center, radius, normal }
    }

    /// Where the ray crosses the disk's plane, if that is no further from
    /// the centre than the radius.
    pub fn intersect(&self, ray: &Ray) -> (r: Intersection)
        ensures
            r == self.intersect_spec(*ray),
            r.is_valid(),
            r is Intersect ==> r == self.plane_spec().intersect_spec(*ray),
            self.plane_spec().is_parallel(*ray) ==> r is DoesNotIntersect,
    {
        let plane: Plane = Plane::new(self.normal, self.center);
        match plane.intersect(ray) {
            Intersection::Intersect(t) => {
                let point: Point = ray.at(t);
                let distance: Scalar = point.to_vector().sub(self.center.to_vector()).length();
                if distance.le(self.radius) {
                    Intersection::Intersect(t)
                } else {
                    Intersection::DoesNotIntersect
                }
            },
            Intersection::DoesNotIntersect => Intersection::DoesNotIntersect,
        }
    }

    /// The disk's own normal, wherever the point lies.
    pub fn normal_at_point(&self, point: &Point) -> (r: Normal)
        ensures
            r == self.normal,
    {
        self.normal
    }
}

} // verus!
