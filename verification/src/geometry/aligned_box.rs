//! Boxes whose faces are perpendicular to the axes.
//!
//! A ray is tested against a box one axis at a time. On each axis the ray
//! is between the box's two planes for an interval of its parameter; it is
//! inside the box where the three intervals overlap.
use crate::arith::magnitude;
use crate::geometry::normal::{is_unit_bounded, Normal};
use crate::geometry::point::Point;
use crate::geometry::ray::Ray;
use crate::geometry::vector::Vector;
use crate::geometry::Intersection;
use crate::scalar::{
    lemma_div_mul_round_trip, lemma_div_sign, lemma_mul_between, Scalar, ONE, TOLERANCE,
};
use vstd::prelude::*;

verus! {

/// The box between the corner `min` and the corner `max`.
#[derive(Clone, Copy, Debug, PartialEq, Eq, Structural)]
pub struct AlignedBox {
    pub min: Point,
    pub max: Point,
}

/// The parameter at which a ray, on one axis, crosses the plane at `face`:
/// the way from the origin to the plane, divided by the direction.
pub open spec fn crossing(face: Scalar, origin: Scalar, direction: Scalar) -> Scalar {
    face.sub_spec(origin).div_spec(direction)
}

/// The parameters at which a ray with the given origin and direction on one
/// axis crosses the planes at `low` and at `high`, the smaller first.
pub open spec fn slab_spec(low: Scalar, high: Scalar, origin: Scalar, direction: Scalar) -> (
    Scalar,
    Scalar,
) {
    let t0 = crossing(low, origin, direction);
    let t1 = crossing(high, origin, direction);
    if t0.gt_spec(t1) {
        (t1, t0)
    } else {
        (t0, t1)
    }
}

/// Neither end of the interval is undefined.
pub open spec fn is_defined(interval: (Scalar, Scalar)) -> bool {
    !(interval.0 is Nan) && !(interval.1 is Nan)
}

/// An interval that holds zero: it begins at or below it and ends at or
/// above it.
pub open spec fn holds_zero(interval: (Scalar, Scalar)) -> bool {
    is_defined(interval) && interval.0.key() <= 0 <= interval.1.key()
}

/// What two intervals have in common, or nothing where one begins after the
/// other has ended.
pub open spec fn overlap_spec(a: (Scalar, Scalar), b: (Scalar, Scalar)) -> Option<
    (Scalar, Scalar),
> {
    if a.0.gt_spec(b.1) || b.0.gt_spec(a.1) {
        None
    } else {
        Some((a.0.max_spec(b.0), a.1.min_spec(b.1)))
    }
}

/// Whether two scalars differ by less than the surface tolerance.
pub open spec fn is_near(a: Scalar, b: Scalar) -> bool {
    a.sub_spec(b).abs_spec().lt_spec(Scalar::Finite(TOLERANCE))
}

/// The normal with the given whole components.
pub open spec fn axis_normal(x: int, y: int, z: int) -> Normal {
    Normal {
        x: Scalar::Finite((x * ONE) as i64),
        y: Scalar::Finite((y * ONE) as i64),
        z: Scalar::Finite((z * ONE) as i64),
    }
}

/// On one axis, the ray runs along the two planes and starts outside the
/// space between them.
pub open spec fn passes_beside(low: Scalar, high: Scalar, origin: Scalar, direction: Scalar) -> bool {
    direction == Scalar::Finite(0) && (origin.lt_spec(low) && origin.lt_spec(high)
        || origin.gt_spec(low) && origin.gt_spec(high))
}

impl AlignedBox {
    /// The interval on the x axis.
    pub open spec fn slab_x(self, ray: Ray) -> (Scalar, Scalar) {
        slab_spec(self.min.x, self.max.x, ray.origin.x, ray.direction.x)
    }

    /// The interval on the y axis.
    pub open spec fn slab_y(self, ray: Ray) -> (Scalar, Scalar) {
        slab_spec(self.min.y, self.max.y, ray.origin.y, ray.direction.y)
    }

    /// The interval on the z axis.
    pub open spec fn slab_z(self, ray: Ray) -> (Scalar, Scalar) {
        slab_spec(self.min.z, self.max.z, ray.origin.z, ray.direction.z)
    }

    /// The parameters between which the ray's line is inside the box: what
    /// the three intervals have in common. There is none where one of the
    /// six crossings is undefined, as for a ray that runs in a face's plane.
    pub open spec fn span_spec(self, ray: Ray) -> Option<(Scalar, Scalar)> {
        let sx = self.slab_x(ray);
        let sy = self.slab_y(ray);
        let sz = self.slab_z(ray);
        if !is_defined(sx) || !is_defined(sy) || !is_defined(sz) {
            None
        } else {
            match overlap_spec(sx, sy) {
                None => None,
                Some(xy) => overlap_spec(xy, sz),
            }
        }
    }

    /// Picks the hit from the span: where the ray enters, if that is a
    /// number not below zero; else, for a ray that starts inside, where it
    /// leaves, on the same condition. A span that begins at an infinity
    /// gives no hit.
    pub open spec fn choose_spec(span: (Scalar, Scalar)) -> Intersection {
        let (enter, leave) = span;
        if enter is Finite && 0 <= enter.raw() {
            Intersection::Intersect(enter)
        } else if enter is Finite && leave is Finite && 0 <= leave.raw() {
            Intersection::Intersect(leave)
        } else {
            Intersection::DoesNotIntersect
        }
    }

    /// Where the ray meets the box: the hit picked from the span, if there
    /// is a span.
    pub open spec fn intersect_spec(self, ray: Ray) -> Intersection {
        match self.span_spec(ray) {
            None => Intersection::DoesNotIntersect,
            Some(span) => Self::choose_spec(span),
        }
    }

    /// On some axis the ray runs along the box's two faces, outside the
    /// space between them.
    pub open spec fn is_passed_beside(self, ray: Ray) -> bool {
        ||| passes_beside(self.min.x, self.max.x, ray.origin.x, ray.direction.x)
        ||| passes_beside(self.min.y, self.max.y, ray.origin.y, ray.direction.y)
        ||| passes_beside(self.min.z, self.max.z, ray.origin.z, ray.direction.z)
    }

    /// The normal of the first face on which the point lies, in the order
    /// x-min, x-max, y-min, y-max, z-min, z-max; none where it lies on no
    /// face.
    pub open spec fn face_normal_spec(self, point: Point) -> Option<Normal> {
        if is_near(point.x, self.min.x) {
            Some(axis_normal(-1, 0, 0))
        } else if is_near(point.x, self.max.x) {
            Some(axis_normal(1, 0, 0))
        } else if is_near(point.y, self.min.y) {
            Some(axis_normal(0, -1, 0))
        } else if is_near(point.y, self.max.y) {
            Some(axis_normal(0, 1, 0))
        } else if is_near(point.z, self.min.z) {
            Some(axis_normal(0, 0, -1))
        } else if is_near(point.z, self.max.z) {
            Some(axis_normal(0, 0, 1))
        } else {
            None
        }
    }

    /// The point lies on one of the six faces' planes, within the surface
    /// tolerance.
    pub open spec fn is_on_surface(self, point: Point) -> bool {
        self.face_normal_spec(point) is Some
    }

    /// The box between two corners.
    pub fn new(min: Point, max: Point) -> (r: AlignedBox)
        ensures
            r == (AlignedBox { min, max }),
    {
        AlignedBox { min, max }
    }

    /// The box that reaches from `center` by the three given extents in
    /// both directions of each axis.
    pub fn from_dimensions(center: Point, width: Scalar, height: Scalar, length: Scalar) -> (r:
        AlignedBox)
        ensures
            r.min == (Point {
                x: center.x.sub_spec(width),
                y: center.y.sub_spec(height),
                z: center.z.sub_spec(length),
            }),
            r.max == (Point {
                x: center.x.add_spec(width),
                y: center.y.add_spec(height),
                z: center.z.add_spec(length),
            }),
    {
        let size: Vector = Vector::new(width, height, length);
        let center: Vector = center.to_vector();
        let low: Vector = center.sub(size);
        let high: Vector = center.add(size);
        AlignedBox::new(Point::new(low.x, low.y, low.z), Point::new(high.x, high.y, high.z))
    }

    /// The parameters between which the ray's line is inside the box.
    pub fn span(&self, ray: &Ray) -> (r: Option<(Scalar, Scalar)>)
        ensures
            r == self.span_spec(*ray),
            r matches Some(s) ==> is_defined(s),
    {
        let sx: (Scalar, Scalar) = slab(self.min.x, self.max.x, ray.origin.x, ray.direction.x);
        let sy: (Scalar, Scalar) = slab(self.min.y, self.max.y, ray.origin.y, ray.direction.y);
        let sz: (Scalar, Scalar) = slab(self.min.z, self.max.z, ray.origin.z, ray.direction.z);
        if sx.0.is_nan() || sx.1.is_nan() || sy.0.is_nan() || sy.1.is_nan() || sz.0.is_nan()
            || sz.1.is_nan() {
            return None;
        }
        match overlap(sx, sy) {
            None => None,
            Some(xy) => overlap(xy, sz),
        }
    }

    /// Where the ray enters the box or, for a ray that starts inside it,
    /// where it leaves. A ray that runs along two faces and outside the
    /// space between them never meets the box.
    pub fn intersect(&self, ray: &Ray) -> (r: Intersection)
        ensures
            r == self.intersect_spec(*ray),
            r.is_valid(),
            self.is_passed_beside(*ray) ==> r is DoesNotIntersect,
    {
        match self.span(ray) {
            None => Intersection::DoesNotIntersect,
            Some((enter, leave)) => {
                if enter.is_finite() && enter.ge(Scalar::Finite(0)) {
                    Intersection::Intersect(enter)
                } else if enter.is_finite() && leave.is_finite() && leave.ge(Scalar::Finite(0)) {
                    Intersection::Intersect(leave)
                } else {
                    Intersection::DoesNotIntersect
                }
            },
        }
    }

    /// The normal of the first face on which the point lies, if it lies on
    /// one.
    pub fn face_normal(&self, point: &Point) -> (r: Option<Normal>)
        ensures
            r == self.face_normal_spec(*point),
            r matches Some(n) ==> n.wf(),
    {
        let o: Scalar = Scalar::Finite(0);
        let l: Scalar = Scalar::Finite(ONE);
        let m: Scalar = Scalar::Finite(-ONE);
        if near(point.x, self.min.x) {
            Some(Normal { x: m, y: o, z: o })
        } else if near(point.x, self.max.x) {
            Some(Normal { x: l, y: o, z: o })
        } else if near(point.y, self.min.y) {
            Some(Normal { x: o, y: m, z: o })
        } else if near(point.y, self.max.y) {
            Some(Normal { x: o, y: l, z: o })
        } else if near(point.z, self.min.z) {
            Some(Normal { x: o, y: o, z: m })
        } else if near(point.z, self.max.z) {
            Some(Normal { x: o, y: o, z: l })
        } else {
            None
        }
    }

    /// The outward normal at a point of the surface. A point that lies on
    /// none of the faces is not accepted.
    pub fn normal_at_point(&self, point: &Point, intersection: Intersection) -> (r: Normal)
        requires
            self.is_on_surface(*point),
        ensures
            Some(r) == self.face_normal_spec(*point),
            r.wf(),
    {
        self.face_normal(point).unwrap()
    }
}

fn slab(low: Scalar, high: Scalar, origin: Scalar, direction: Scalar) -> (r: (Scalar, Scalar))
    ensures
        r == slab_spec(low, high, origin, direction),
{
    let t0: Scalar = low.sub(origin).div(direction);
    let t1: Scalar = high.sub(origin).div(direction);
    if t0.gt(t1) {
        (t1, t0)
    } else {
        (t0, t1)
    }
}

fn overlap(a: (Scalar, Scalar), b: (Scalar, Scalar)) -> (r: Option<(Scalar, Scalar)>)
    ensures
        r == overlap_spec(a, b),
{
    if a.0.gt(b.1) || b.0.gt(a.1) {
        None
    } else {
        Some((a.0.max(b.0), a.1.min(b.1)))
    }
}

fn near(a: Scalar, b: Scalar) -> (r: bool)
    ensures
        r == is_near(a, b),
{
    a.sub(b).abs().lt(Scalar::Finite(TOLERANCE))
}

/// On one axis, a ray that starts strictly between the two planes is
/// between them for an interval of parameters that holds zero.
pub proof fn lemma_slab_holds_zero(low: Scalar, high: Scalar, origin: Scalar, direction: Scalar)
    requires
        origin is Finite,
        direction is Finite,
        low.lt_spec(origin),
        origin.lt_spec(high),
    ensures
        holds_zero(slab_spec(low, high, origin, direction)),
{
    lemma_div_sign(low.sub_spec(origin), direction);
    lemma_div_sign(high.sub_spec(origin), direction);
}

/// On one axis, a ray whose direction is a number between minus one and
/// one, followed to where it crosses a plane, arrives within one raw step
/// of the plane.
pub proof fn lemma_crossing_arrives(face: Scalar, origin: Scalar, direction: Scalar)
    requires
        crossing(face, origin, direction) is Finite,
        is_unit_bounded(direction),
    ensures
        face is Finite,
        origin.add_spec(direction.mul_spec(crossing(face, origin, direction))) is Finite,
        magnitude(
            origin.add_spec(direction.mul_spec(crossing(face, origin, direction))).raw()
                - face.raw(),
        ) <= 1,
        is_near(origin.add_spec(direction.mul_spec(crossing(face, origin, direction))), face),
{
    lemma_div_mul_round_trip(face.sub_spec(origin), direction);
}

/// A ray that starts strictly inside the box, with a direction of numbers,
/// is inside it for an interval of parameters that holds zero, and is
/// reported to meet the box at zero, if it enters there, or where it
/// leaves, if that is a number. It is never reported to meet the box at an
/// infinite parameter.
pub proof fn law_ray_from_inside(b: AlignedBox, ray: Ray)
    requires
        ray.origin.is_finite(),
        ray.direction.is_finite(),
        b.min.x.lt_spec(ray.origin.x) && ray.origin.x.lt_spec(b.max.x),
        b.min.y.lt_spec(ray.origin.y) && ray.origin.y.lt_spec(b.max.y),
        b.min.z.lt_spec(ray.origin.z) && ray.origin.z.lt_spec(b.max.z),
    ensures
        b.span_spec(ray) matches Some(span) && holds_zero(span) && b.intersect_spec(ray) == (
        if span.0 == Scalar::Finite(0) {
            Intersection::Intersect(span.0)
        } else if span.0 is Finite && span.1 is Finite {
            Intersection::Intersect(span.1)
        } else {
            Intersection::DoesNotIntersect
        }),
{
    lemma_slab_holds_zero(b.min.x, b.max.x, ray.origin.x, ray.direction.x);
    lemma_slab_holds_zero(b.min.y, b.max.y, ray.origin.y, ray.direction.y);
    lemma_slab_holds_zero(b.min.z, b.max.z, ray.origin.z, ray.direction.z);
}

/// A ray that runs along two faces of the box, outside the space between
/// them, is never reported to meet it, whatever else holds of the ray and
/// the box.
pub proof fn law_ray_beside_misses(b: AlignedBox, ray: Ray)
    requires
        b.is_passed_beside(ray),
    ensures
        b.intersect_spec(ray) is DoesNotIntersect,
{
}

/// Whether a parameter lies in an interval, ends included.
pub open spec fn is_within(interval: (Scalar, Scalar), t: Scalar) -> bool {
    interval.0.le_spec(t) && t.le_spec(interval.1)
}

/// Whether the ray, at parameter `t`, is between the box's two planes on
/// each of the three axes, and so inside the box or on its surface.
pub open spec fn is_inside_at(b: AlignedBox, ray: Ray, t: Scalar) -> bool {
    is_within(b.slab_x(ray), t) && is_within(b.slab_y(ray), t) && is_within(b.slab_z(ray), t)
}

/// Where a ray is reported to meet the box, it is between the box's two
/// planes on every axis: the reported parameter lies in all three
/// intervals, and it is an end of their overlap.
pub proof fn law_hit_is_inside_all_slabs(b: AlignedBox, ray: Ray)
    ensures
        b.intersect_spec(ray) matches Intersection::Intersect(t) ==> is_inside_at(b, ray, t) && (
        b.span_spec(ray) matches Some(span) && (t == span.0 || t == span.1)),
{
}

/// A ray that is reported to miss the box is at no parameter from zero up
/// between the box's planes on all three axes. Stated the other way round:
/// where it is, at some such parameter, the ray is reported to meet the
/// box, no later than there if it enters the box and no earlier if it
/// starts inside. This holds wherever both ends of the overlap are
/// numbers, which leaves out the ray without direction and the one whose
/// way out of the box lies beyond the finite range.
pub proof fn law_miss_means_outside(b: AlignedBox, ray: Ray, t: Scalar)
    requires
        t is Finite,
        0 <= t.raw(),
        is_inside_at(b, ray, t),
        b.span_spec(ray) matches Some(span) ==> span.0 is Finite && span.1 is Finite,
    ensures
        b.span_spec(ray) matches Some(span) && (b.intersect_spec(ray) matches Intersection::Intersect(
            u,
        ) && if 0 <= span.0.raw() {
            u == span.0 && u.raw() <= t.raw()
        } else {
            u == span.1 && t.raw() <= u.raw()
        }),
{
}

/// Whether a coordinate lies between two planes of its axis, give or take
/// one raw step.
pub open spec fn is_between(low: Scalar, high: Scalar, p: Scalar) -> bool {
    p is Finite && !(low is Nan) && !(high is Nan) && ((low.key() - 1 <= p.raw() <= high.key() + 1)
        || (high.key() - 1 <= p.raw() <= low.key() + 1))
}

/// Whether a point lies in the box or on its surface, give or take one raw
/// step on each axis.
pub open spec fn holds_point(b: AlignedBox, point: Point) -> bool {
    is_between(b.min.x, b.max.x, point.x) && is_between(b.min.y, b.max.y, point.y) && is_between(
        b.min.z,
        b.max.z,
        point.z,
    )
}

/// On one axis, either the ray runs along the planes or it crosses both
/// at parameters that are numbers.
pub open spec fn crosses_or_runs_along(
    low: Scalar,
    high: Scalar,
    origin: Scalar,
    direction: Scalar,
) -> bool {
    direction.raw() != 0 ==> crossing(low, origin, direction) is Finite && crossing(
        high,
        origin,
        direction,
    ) is Finite
}

/// On one axis, a ray whose direction is a number between minus one and
/// one is, at every parameter of the interval between its two crossings,
/// between the two planes, give or take one raw step.
pub proof fn lemma_axis_between(
    low: Scalar,
    high: Scalar,
    origin: Scalar,
    direction: Scalar,
    t: Scalar,
)
    requires
        is_unit_bounded(direction),
        t is Finite,
        is_within(slab_spec(low, high, origin, direction), t),
        crosses_or_runs_along(low, high, origin, direction),
    ensures
        is_between(low, high, origin.add_spec(direction.mul_spec(t))),
{
    if direction.raw() != 0 {
        let c1 = crossing(low, origin, direction);
        let c2 = crossing(high, origin, direction);
        lemma_crossing_arrives(low, origin, direction);
        lemma_crossing_arrives(high, origin, direction);
        lemma_div_mul_round_trip(low.sub_spec(origin), direction);
        lemma_div_mul_round_trip(high.sub_spec(origin), direction);
        lemma_mul_between(direction->0, t->0, c1->0, c2->0);
    }
}

/// Where a ray whose direction has no component beyond one in magnitude
/// is reported to meet the box, the point of the ray at the reported
/// parameter lies between the box's two planes on every axis, give or
/// take one raw step. This holds wherever, on each axis, the ray runs
/// along the planes or crosses both at parameters that are numbers.
pub proof fn law_hit_point_is_inside(b: AlignedBox, ray: Ray)
    requires
        ray.has_bounded_direction(),
        crosses_or_runs_along(b.min.x, b.max.x, ray.origin.x, ray.direction.x),
        crosses_or_runs_along(b.min.y, b.max.y, ray.origin.y, ray.direction.y),
        crosses_or_runs_along(b.min.z, b.max.z, ray.origin.z, ray.direction.z),
    ensures
        b.intersect_spec(ray) matches Intersection::Intersect(t) ==> holds_point(
            b,
            ray.at_spec(t),
        ),
{
    if let Intersection::Intersect(t) = b.intersect_spec(ray) {
        law_hit_is_inside_all_slabs(b, ray);
        lemma_axis_between(b.min.x, b.max.x, ray.origin.x, ray.direction.x, t);
        lemma_axis_between(b.min.y, b.max.y, ray.origin.y, ray.direction.y, t);
        lemma_axis_between(b.min.z, b.max.z, ray.origin.z, ray.direction.z, t);
    }
}

/// Where a ray whose direction has no component beyond one in magnitude
/// is reported to meet the box, it is on one of the box's faces: the point
/// of the ray at the reported parameter has a surface normal.
pub proof fn law_hit_lies_on_surface(b: AlignedBox, ray: Ray)
    requires
        ray.has_bounded_direction(),
    ensures
        b.intersect_spec(ray) matches Intersection::Intersect(t) ==> b.is_on_surface(
            ray.at_spec(t),
        ),
{
    if let Intersection::Intersect(t) = b.intersect_spec(ray) {
        let o = ray.origin;
        let d = ray.direction;
        if t == crossing(b.min.x, o.x, d.x) {
            lemma_crossing_arrives(b.min.x, o.x, d.x);
        }
        if t == crossing(b.max.x, o.x, d.x) {
            lemma_crossing_arrives(b.max.x, o.x, d.x);
        }
        if t == crossing(b.min.y, o.y, d.y) {
            lemma_crossing_arrives(b.min.y, o.y, d.y);
        }
        if t == crossing(b.max.y, o.y, d.y) {
            lemma_crossing_arrives(b.max.y, o.y, d.y);
        }
        if t == crossing(b.min.z, o.z, d.z) {
            lemma_crossing_arrives(b.min.z, o.z, d.z);
        }
        if t == crossing(b.max.z, o.z, d.z) {
            lemma_crossing_arrives(b.max.z, o.z, d.z);
        }
    }
}

} // verus!
