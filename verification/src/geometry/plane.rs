//! Unbounded planes.
use crate::geometry::normal::Normal;
use crate::geometry::point::Point;
use crate::geometry::ray::Ray;
use crate::geometry::vector::Vector;
use crate::geometry::Intersection;
use crate::scalar::{Scalar, EPSILON};
use vstd::prelude::*;

verus! {

/// The plane through `center` that is perpendicular to `normal`.
#[derive(Clone, Copy, Debug, PartialEq, Eq, Structural)]
pub struct Plane {
    pub normal: Normal,
    pub center: Point,
}

impl Plane {
    /// The plane's normal as a vector.
    pub open spec fn normal_vector(self) -> Vector {
        Vector { x: self.normal.x, y: self.normal.y, z: self.normal.z }
    }

    /// The ray runs along the plane: its direction is perpendicular to the
    /// normal, as far as the smallest positive scalar can tell.
    pub open spec fn is_parallel(self, ray: Ray) -> bool {
        ray.direction.dot_spec(self.normal_vector()).abs_spec().le_spec(Scalar::Finite(EPSILON))
    }

    /// The parameter at which the ray's line crosses the plane:
    /// `((c - o) . n) / (d . n)`.
    pub open spec fn crossing_spec(self, ray: Ray) -> Scalar {
        let n = self.normal_vector();
        let k = self.center.to_vector_spec().sub_spec(ray.origin.to_vector_spec());
        k.dot_spec(n).div_spec(ray.direction.dot_spec(n))
    }

    /// Where the ray meets the plane: at its crossing, unless it runs along
    /// the plane, or the crossing lies behind its origin or is not a number.
    pub open spec fn intersect_spec(self, ray: Ray) -> Intersection {
        let t = self.crossing_spec(ray);
        if self.is_parallel(ray) {
            Intersection::DoesNotIntersect
        } else if t is Finite && 0 <= t.raw() {
            Intersection::Intersect(t)
        } else {
            Intersection::DoesNotIntersect
        }
    }

    /// The plane through `center` that is perpendicular to `normal`.
    pub fn new(normal: Normal, center: Point) -> (r: Plane)
        ensures
            r == (Plane { normal, center }),
    {
        Plane { normal, center }
    }

    /// Where the ray crosses the plane, unless it runs along it or the
    /// crossing lies behind its origin.
    pub fn intersect(&self, ray: &Ray) -> (r: Intersection)
        ensures
            r == self.intersect_spec(*ray),
            r.is_valid(),
            self.is_parallel(*ray) ==> r is DoesNotIntersect,
    {
        let normal: Vector = Vector { x: self.normal.x, y: self.normal.y, z: self.normal.z };
        let dn: Scalar = ray.direction.dot(normal);
        if dn.abs().le(Scalar::Finite(EPSILON)) {
            return Intersection::DoesNotIntersect;
        }
        let k: Vector = self.center.to_vector().sub(ray.origin.to_vector());
        let t: Scalar = k.dot(normal).div(dn);
        if t.is_finite() && t.ge(Scalar::Finite(0)) {
            Intersection::Intersect(t)
        } else {
            Intersection::DoesNotIntersect
        }
    }

    /// The plane's own normal, wherever the point lies.
    pub fn normal_at_point(&self, point: &Point) -> (r: Normal)
        ensures
            r == self.normal,
    {
        self.normal
    }
}

/// A ray that runs along a plane does not meet it, wherever the ray
/// starts: whether it runs along the plane depends on its direction alone.
pub proof fn law_parallel_ray_misses(plane: Plane, ray: Ray, origin: Point)
    requires
        plane.is_parallel(ray),
    ensures
        plane.intersect_spec(ray) is DoesNotIntersect,
        plane.intersect_spec(Ray { origin, direction: ray.direction }) is DoesNotIntersect,
{
}

} // verus!
