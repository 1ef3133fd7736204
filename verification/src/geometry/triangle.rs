//! Triangles.
use crate::geometry::normal::Normal;
use crate::geometry::point::Point;
use crate::geometry::ray::Ray;
use crate::geometry::vector::Vector;
use crate::geometry::{Intersection, Transformation};
use crate::scalar::{Scalar, EPSILON, ONE};
use vstd::prelude::*;

verus! {

/// A triangle, held as the position vectors of its three corners.
#[derive(Clone, Copy, Debug, PartialEq, Eq, Structural)]
pub struct Triangle {
    pub a: Vector,
    pub b: Vector,
    pub c: Vector,
}

/// Whether a barycentric coordinate is a number from zero to one.
pub open spec fn in_unit_range(s: Scalar) -> bool {
    Scalar::Finite(0).le_spec(s) && s.le_spec(Scalar::Finite(ONE))
}

impl Triangle {
    /// The edge from the first corner to the second.
    pub open spec fn ab(self) -> Vector {
        self.b.sub_spec(self.a)
    }

    /// The edge from the first corner to the third.
    pub open spec fn ac(self) -> Vector {
        self.c.sub_spec(self.a)
    }

    /// The determinant `ab . (d x ac)`. It is zero where the ray runs
    /// along the triangle's plane.
    pub open spec fn determinant_spec(self, ray: Ray) -> Scalar {
        self.ab().dot_spec(ray.direction.cross_spec(self.ac()))
    }

    /// The ray runs along the triangle's plane, as far as the smallest
    /// positive scalar can tell.
    pub open spec fn is_parallel(self, ray: Ray) -> bool {
        self.determinant_spec(ray).abs_spec().lt_spec(Scalar::Finite(EPSILON))
    }

    /// The first barycentric coordinate of the crossing:
    /// `((o - a) . (d x ac)) / det`.
    pub open spec fn u_spec(self, ray: Ray) -> Scalar {
        let ao = ray.origin.to_vector_spec().sub_spec(self.a);
        ao.dot_spec(ray.direction.cross_spec(self.ac())).div_spec(self.determinant_spec(ray))
    }

    /// The second barycentric coordinate of the crossing:
    /// `(d . ((o - a) x ab)) / det`.
    pub open spec fn v_spec(self, ray: Ray) -> Scalar {
        let ao = ray.origin.to_vector_spec().sub_spec(self.a);
        ray.direction.dot_spec(ao.cross_spec(self.ab())).div_spec(self.determinant_spec(ray))
    }

    /// The parameter of the crossing: `(ac . ((o - a) x ab)) / det`.
    pub open spec fn t_spec(self, ray: Ray) -> Scalar {
        let ao = ray.origin.to_vector_spec().sub_spec(self.a);
        self.ac().dot_spec(ao.cross_spec(self.ab())).div_spec(self.determinant_spec(ray))
    }

    /// The crossing lies inside the triangle: both coordinates and their
    /// sum are numbers from zero to one.
    pub open spec fn is_inside(self, ray: Ray) -> bool {
        let u = self.u_spec(ray);
        let v = self.v_spec(ray);
        in_unit_range(u) && Scalar::Finite(0).le_spec(v) && u.add_spec(v).le_spec(
            Scalar::Finite(ONE),
        )
    }

    /// Where the ray meets the triangle: at its crossing with the plane, if
    /// that lies inside the triangle and more than the smallest positive
    /// scalar in front of the origin.
    pub open spec fn intersect_spec(self, ray: Ray) -> Intersection {
        let t = self.t_spec(ray);
        if !self.is_parallel(ray) && self.is_inside(ray) && t is Finite && EPSILON < t.raw() {
            Intersection::Intersect(t)
        } else {
            Intersection::DoesNotIntersect
        }
    }

    /// The direction of `ab x ac`: the same all over the triangle.
    pub open spec fn normal_spec(self) -> Normal {
        self.ab().cross_spec(self.ac()).normalize_spec()
    }

    /// The triangle with each corner carried by the transformation's
    /// matrix, as a point.
    pub open spec fn transform_spec(self, transformation: Transformation) -> Triangle {
        let m = transformation.to_matrix_spec();
        Triangle {
            a: m.mul_point_spec(Point { x: self.a.x, y: self.a.y, z: self.a.z }).to_vector_spec(),
            b: m.mul_point_spec(Point { x: self.b.x, y: self.b.y, z: self.b.z }).to_vector_spec(),
            c: m.mul_point_spec(Point { x: self.c.x, y: self.c.y, z: self.c.z }).to_vector_spec(),
        }
    }

    /// The triangle with the given corners.
    pub fn new(a: Point, b: Point, c: Point) -> (r: Triangle)
        ensures
            r == (Triangle {
                a: a.to_vector_spec(),
                b: b.to_vector_spec(),
                c: c.to_vector_spec(),
            }),
    {
        Triangle { a: a.to_vector(), b: b.to_vector(), c: c.to_vector() }
    }

    /// Where the ray crosses the triangle, strictly in front of its origin.
    pub fn intersect(&self, ray: &Ray) -> (r: Intersection)
        ensures
            r == self.intersect_spec(*ray),
            r.is_valid(),
            r matches Intersection::Intersect(t) ==> EPSILON < t.raw(),
            self.is_parallel(*ray) ==> r is DoesNotIntersect,
    {
        let ab: Vector = self.b.sub(self.a);
        let ac: Vector = self.c.sub(self.a);
        let pvec: Vector = ray.direction.cross(ac);
        let det: Scalar = ab.dot(pvec);
        if det.abs().lt(Scalar::Finite(EPSILON)) {
            return Intersection::DoesNotIntersect;
        }
        let ao: Vector = ray.origin.to_vector().sub(self.a);
        let u: Scalar = ao.dot(pvec).div(det);
        if !(Scalar::Finite(0).le(u) && u.le(Scalar::Finite(ONE))) {
            return Intersection::DoesNotIntersect;
        }
        let qvec: Vector = ao.cross(ab);
        let v: Scalar = ray.direction.dot(qvec).div(det);
        if !(Scalar::Finite(0).le(v) && u.add(v).le(Scalar::Finite(ONE))) {
            return Intersection::DoesNotIntersect;
        }
        let t: Scalar = ac.dot(qvec).div(det);
        if t.is_finite() && t.gt(Scalar::Finite(EPSILON)) {
            Intersection::Intersect(t)
        } else {
            Intersection::DoesNotIntersect
        }
    }

    /// The triangle's flat normal, wherever the point lies.
    pub fn normal_at_point(&self, point: &Point) -> (r: Normal)
        ensures
            r == self.normal_spec(),
            r.wf(),
    {
        let ab: Vector = self.b.sub(self.a);
        let ac: Vector = self.c.sub(self.a);
        ab.cross(ac).normalize()
    }

    /// Carries each corner by the transformation's matrix.
    pub fn transform(&mut self, transformation: Transformation)
        ensures
            *final(self) == old(self).transform_spec(transformation),
    {
        let m = transformation.transformation_to_matrix();
        self.a = m.mul_point(Point { x: self.a.x, y: self.a.y, z: self.a.z }).to_vector();
        self.b = m.mul_point(Point { x: self.b.x, y: self.b.y, z: self.b.z }).to_vector();
        self.c = m.mul_point(Point { x: self.c.x, y: self.c.y, z: self.c.z }).to_vector();
    }
}

} // verus!
