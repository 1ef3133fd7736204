//! Spheres.
use crate::arith::{four_to, lemma_three_squares, magnitude};
use crate::geometry::normal::Normal;
use crate::geometry::point::Point;
use crate::geometry::ray::Ray;
use crate::geometry::vector::Vector;
use crate::geometry::{Axis, Intersection, Transformation};
use crate::scalar::{
    lemma_div_exact, lemma_mul_exact, lemma_mul_one, lemma_mul_zero, lemma_sqrt_exact, Scalar, FOUR,
    ONE, TWO,
};
use vstd::prelude::*;

verus! {

/// The sphere of the given radius about `center`.
#[derive(Clone, Copy, Debug, PartialEq, Eq, Structural)]
pub struct Sphere {
    pub center: Point,
    pub radius: Scalar,
}

/// Whether a root of the quadratic is a hit: a number not below zero.
pub open spec fn is_hit_root(t: Scalar) -> bool {
    t is Finite && 0 <= t.raw()
}

impl Sphere {
    /// The coefficients `(a, b, c)` of the quadratic `a t^2 + b t + c = 0`
    /// whose roots are the parameters at which the ray's line meets the
    /// sphere: with `k` the ray's origin seen from the centre and `d` its
    /// direction, `a = d.d`, `b = 2 k.d` and `c = k.k - r^2`.
    pub open spec fn quadratic_spec(self, ray: Ray) -> (Scalar, Scalar, Scalar) {
        let k = ray.origin.to_vector_spec().sub_spec(self.center.to_vector_spec());
        let a = ray.direction.dot_spec(ray.direction);
        let b = Scalar::Finite(TWO).mul_spec(k.dot_spec(ray.direction));
        let c = k.dot_spec(k).sub_spec(self.radius.mul_spec(self.radius));
        (a, b, c)
    }

    /// The discriminant `b^2 - 4ac` of the quadratic.
    pub open spec fn discriminant_spec(self, ray: Ray) -> Scalar {
        let (a, b, c) = self.quadratic_spec(ray);
        b.mul_spec(b).sub_spec(Scalar::Finite(FOUR).mul_spec(a).mul_spec(c))
    }

    /// The two parameters at which the ray's line meets the sphere, the one
    /// that subtracts the root of the discriminant first; none where the
    /// discriminant is below zero.
    pub open spec fn roots_spec(self, ray: Ray) -> Option<(Scalar, Scalar)> {
        let (a, b, c) = self.quadratic_spec(ray);
        let discriminant = self.discriminant_spec(ray);
        if discriminant.lt_spec(Scalar::Finite(0)) {
            None
        } else {
            let root = discriminant.sqrt_spec();
            let twice_a = Scalar::Finite(TWO).mul_spec(a);
            Some(
                (
                    b.neg_spec().sub_spec(root).div_spec(twice_a),
                    b.neg_spec().add_spec(root).div_spec(twice_a),
                ),
            )
        }
    }

    /// The hit among two roots: the smaller of those that are numbers not
    /// below zero, and none where neither is. A ray that starts on the
    /// sphere therefore meets it at zero.
    pub open spec fn choose_root(t1: Scalar, t2: Scalar) -> Intersection {
        if is_hit_root(t1) && is_hit_root(t2) {
            Intersection::Intersect(t1.min_spec(t2))
        } else if is_hit_root(t1) {
            Intersection::Intersect(t1)
        } else if is_hit_root(t2) {
            Intersection::Intersect(t2)
        } else {
            Intersection::DoesNotIntersect
        }
    }

    /// Whether `t` is the smallest of the roots that are hits.
    pub open spec fn is_smallest_hit_root(self, ray: Ray, t: Scalar) -> bool {
        self.roots_spec(ray) matches Some((t1, t2)) && is_hit_root(t) && (t == t1 || t == t2) && (
        is_hit_root(t1) ==> t.raw() <= t1.raw()) && (is_hit_root(t2) ==> t.raw() <= t2.raw())
    }

    /// Whether the quadratic has a root that is a hit.
    pub open spec fn has_hit_root(self, ray: Ray) -> bool {
        self.roots_spec(ray) matches Some((t1, t2)) && (is_hit_root(t1) || is_hit_root(t2))
    }

    /// Where the ray meets the sphere: the hit among the two roots, if the
    /// quadratic has roots.
    pub open spec fn intersect_spec(self, ray: Ray) -> Intersection {
        match self.roots_spec(ray) {
            None => Intersection::DoesNotIntersect,
            Some((t1, t2)) => Self::choose_root(t1, t2),
        }
    }

    /// The direction from the centre to the point.
    pub open spec fn normal_at_point_spec(self, point: Point) -> Normal {
        point.to_vector_spec().sub_spec(self.center.to_vector_spec()).normalize_spec()
    }

    /// The largest of the three components, ignoring undefined ones.
    pub open spec fn largest_factor(scale: Vector) -> Scalar {
        scale.x.max_spec(scale.y).max_spec(scale.z)
    }

    /// The sphere after a transformation: the centre is carried by the
    /// transformation's matrix, and a scale also multiplies the radius by
    /// the largest of its three factors, so that the result is the sphere
    /// that bounds the scaled shape.
    pub open spec fn transform_spec(self, transformation: Transformation) -> Sphere {
        let center = transformation.to_matrix_spec().mul_point_spec(self.center);
        match transformation {
            Transformation::Scale(scale) => Sphere {
                center,
                radius: self.radius.mul_spec(Self::largest_factor(scale)),
            },
            _ => Sphere { center, radius: self.radius },
        }
    }

    /// The sphere with the given centre and radius.
    pub fn new(center: Point, radius: Scalar) -> (r: Sphere)
        ensures
            r == (Sphere { center, radius }),
    {
        Sphere { center, radius }
    }

    /// Both parameters at which the ray's line meets the sphere.
    pub fn roots(&self, ray: &Ray) -> (r: Option<(Scalar, Scalar)>)
        ensures
            r == self.roots_spec(*ray),
    {
        let k: Vector = ray.origin.to_vector().sub(self.center.to_vector());
        let a: Scalar = ray.direction.dot(ray.direction);
        let b: Scalar = Scalar::Finite(TWO).mul(k.dot(ray.direction));
        let c: Scalar = k.dot(k).sub(self.radius.mul(self.radius));
        let discriminant: Scalar = b.mul(b).sub(Scalar::Finite(FOUR).mul(a).mul(c));
        if discriminant.lt(Scalar::Finite(0)) {
            return None;
        }
        let root: Scalar = discriminant.sqrt();
        let twice_a: Scalar = Scalar::Finite(TWO).mul(a);
        Some((b.neg().sub(root).div(twice_a), b.neg().add(root).div(twice_a)))
    }

    /// The nearest point of the ray, at its origin or in front of it, at
    /// which the ray meets the sphere: the smallest root of the quadratic
    /// that is a number not below zero, and no hit where there is none.
    pub fn intersect(&self, ray: &Ray) -> (r: Intersection)
        ensures
            r == self.intersect_spec(*ray),
            r.is_valid(),
            match r {
                Intersection::Intersect(t) => self.is_smallest_hit_root(*ray, t),
                Intersection::DoesNotIntersect => !self.has_hit_root(*ray),
            },
    {
        match self.roots(ray) {
            None => Intersection::DoesNotIntersect,
            Some((t1, t2)) => {
                let first: bool = t1.is_finite() && t1.ge(Scalar::Finite(0));
                let second: bool = t2.is_finite() && t2.ge(Scalar::Finite(0));
                if first && second {
                    Intersection::Intersect(t1.min(t2))
                } else if first {
                    Intersection::Intersect(t1)
                } else if second {
                    Intersection::Intersect(t2)
                } else {
                    Intersection::DoesNotIntersect
                }
            },
        }
    }

    /// The direction from the centre to the point.
    pub fn normal_at_point(&self, point: &Point, intersection: Intersection) -> (r: Normal)
        ensures
            r == self.normal_at_point_spec(*point),
            r.wf(),
    {
        point.to_vector().sub(self.center.to_vector()).normalize()
    }

    /// Carries the centre by the transformation's matrix; a scale also
    /// multiplies the radius by the largest of its three factors.
    pub fn transform(&mut self, transformation: Transformation)
        ensures
            *final(self) == old(self).transform_spec(transformation),
    {
        self.center = transformation.transformation_to_matrix().mul_point(self.center);
        match transformation {
            Transformation::Scale(scale) => {
                self.radius = self.radius.mul(scale.x.max(scale.y).max(scale.z));
            },
            _ => {},
        }
    }
}

/// A scale multiplies the radius of a sphere by the largest of its three
/// factors: by one of them, and by one that none of the others exceeds.
/// The other transformations leave the radius as it is.
pub proof fn law_scale_takes_largest_factor(sphere: Sphere, transformation: Transformation)
    ensures
        match transformation {
            Transformation::Scale(scale) => {
                let factor = Sphere::largest_factor(scale);
                &&& sphere.transform_spec(transformation).radius == sphere.radius.mul_spec(factor)
                &&& factor == scale.x || factor == scale.y || factor == scale.z
                &&& !scale.has_nan() ==> scale.x.le_spec(factor) && scale.y.le_spec(factor)
                    && scale.z.le_spec(factor)
            },
            _ => sphere.transform_spec(transformation).radius == sphere.radius,
        },
{
}

/// A raw value whose square needs no rounding.
pub open spec fn has_exact_square(raw: int) -> bool {
    (raw * raw) % (ONE as int) == 0
}

/// The square of a scalar with an exact square, as a raw value.
pub open spec fn square_raw(raw: int) -> int {
    (raw * raw) / (ONE as int)
}

/// The quadratic of a sphere about the origin and a ray parallel to an
/// axis stays inside the finite range: four times the squared radius and
/// four times the squared distance of the ray's origin from the centre are
/// numbers.
pub open spec fn quadratic_fits(radius: int, along: int, first: int, second: int) -> bool {
    &&& 4 * square_raw(radius) <= i64::MAX
    &&& 4 * (square_raw(along) + square_raw(first) + square_raw(second)) <= i64::MAX
}

/// What is known of the raw square of a scalar with an exact square.
pub proof fn lemma_exact_square(raw: int)
    requires
        has_exact_square(raw),
    ensures
        raw * raw == square_raw(raw) * ONE,
        0 <= square_raw(raw),
        square_raw(-raw) == square_raw(raw),
        4 * square_raw(raw) <= i64::MAX ==> magnitude(raw) < 0x8000_0000_0000,
{
    let square = square_raw(raw);
    assert(0 <= raw * raw && (-raw) * (-raw) == raw * raw) by (nonlinear_arith);
    if 4 * square <= i64::MAX {
        assert(-0x8000_0000_0000 < raw < 0x8000_0000_0000) by (nonlinear_arith)
            requires
                raw * raw == square * 0x1_0000_0000,
                square < 0x2000_0000_0000_0000,
        ;
    }
}

/// Of two scalars that are not negative, the larger has the larger square.
pub proof fn lemma_square_raw_monotone(small: int, large: int)
    requires
        0 <= small <= large,
        has_exact_square(small),
        has_exact_square(large),
    ensures
        square_raw(small) <= square_raw(large),
        small < large ==> square_raw(small) < square_raw(large),
{
    lemma_exact_square(small);
    lemma_exact_square(large);
    let s = square_raw(small);
    let l = square_raw(large);
    assert(s <= l && (small < large ==> s < l)) by (nonlinear_arith)
        requires
            0 <= small <= large,
            small * small == s * 0x1_0000_0000,
            large * large == l * 0x1_0000_0000,
    ;
}

/// Three components, one along `axis` and two across it, in the order of
/// the axes.
pub open spec fn arrange(axis: Axis, along: i64, first: i64, second: i64) -> (i64, i64, i64) {
    match axis {
        Axis::X => (along, first, second),
        Axis::Y => (second, along, first),
        Axis::Z => (first, second, along),
    }
}

/// The ray that runs parallel to `axis`, toward smaller coordinates if
/// `down` and toward larger ones if not, from the point at `along` on the
/// axis and at `first` and `second` across it.
pub open spec fn axis_ray(axis: Axis, down: bool, along: i64, first: i64, second: i64) -> Ray {
    let o = arrange(axis, along, first, second);
    let d = arrange(
        axis,
        if down {
            (-ONE) as i64
        } else {
            ONE
        },
        0,
        0,
    );
    Ray {
        origin: Point { x: Scalar::Finite(o.0), y: Scalar::Finite(o.1), z: Scalar::Finite(o.2) },
        direction: Vector {
            x: Scalar::Finite(d.0),
            y: Scalar::Finite(d.1),
            z: Scalar::Finite(d.2),
        },
    }
}

/// The sphere of the given radius about the origin.
pub open spec fn sphere_at_origin(radius: i64) -> Sphere {
    Sphere {
        center: Point { x: Scalar::Finite(0), y: Scalar::Finite(0), z: Scalar::Finite(0) },
        radius: Scalar::Finite(radius),
    }
}

/// The product of a number with one, zero or minus one is exact.
proof fn lemma_mul_by_unit(a: i64, unit: i64)
    requires
        unit == ONE || unit == 0 || unit == -ONE,
        magnitude(a as int) < 0x8000_0000_0000,
    ensures
        Scalar::Finite(a).mul_spec(Scalar::Finite(unit)) == Scalar::Finite(
            ((a * unit) / (ONE as int)) as i64,
        ),
        (a * unit) / (ONE as int) == (if unit == 0 {
            0
        } else if unit == ONE {
            a as int
        } else {
            -a
        }),
{
    let q: int = if unit == 0 {
        0
    } else if unit == ONE {
        a as int
    } else {
        -a
    };
    assert(a * unit == q * ONE) by (nonlinear_arith)
        requires
            (unit == 0 && q == 0) || (unit == ONE && q == a) || (unit == -ONE && q == -a),
            ONE == 0x1_0000_0000,
    ;
    lemma_mul_exact(a, unit, q as i64);
}

/// The coefficients of the quadratic for a ray parallel to an axis and a
/// sphere about the origin, where no square needs rounding: `a` is one,
/// `b` is twice the coordinate along the axis, signed by the direction,
/// and the discriminant is four times what is left of the squared radius
/// after the squared offsets across the axis are taken away.
proof fn lemma_axis_quadratic(
    radius: i64,
    axis: Axis,
    down: bool,
    along: i64,
    first: i64,
    second: i64,
)
    requires
        has_exact_square(radius as int),
        has_exact_square(along as int),
        has_exact_square(first as int),
        has_exact_square(second as int),
        quadratic_fits(radius as int, along as int, first as int, second as int),
    ensures
        sphere_at_origin(radius).quadratic_spec(axis_ray(axis, down, along, first, second)) == (
            Scalar::Finite(ONE),
            Scalar::Finite(
                (if down {
                    -2 * along
                } else {
                    2 * along
                }) as i64,
            ),
            Scalar::Finite(
                (square_raw(along as int) + square_raw(first as int) + square_raw(second as int)
                    - square_raw(radius as int)) as i64,
            ),
        ),
        sphere_at_origin(radius).discriminant_spec(axis_ray(axis, down, along, first, second))
            == Scalar::Finite(
            (4 * (square_raw(radius as int) - square_raw(first as int) - square_raw(
                second as int,
            ))) as i64,
        ),
{
    let sphere = sphere_at_origin(radius);
    let ray = axis_ray(axis, down, along, first, second);
    let o = arrange(axis, along, first, second);
    let step: i64 = if down {
        (-ONE) as i64
    } else {
        ONE
    };
    let d = arrange(axis, step, 0, 0);
    let a2 = square_raw(along as int);
    let f2 = square_raw(first as int);
    let s2 = square_raw(second as int);
    let r2 = square_raw(radius as int);
    let toward: int = if down {
        -along
    } else {
        along as int
    };
    lemma_exact_square(along as int);
    lemma_exact_square(first as int);
    lemma_exact_square(second as int);
    lemma_exact_square(radius as int);
    let k = ray.origin.to_vector_spec().sub_spec(sphere.center.to_vector_spec());
    assert(k == Vector { x: Scalar::Finite(o.0), y: Scalar::Finite(o.1), z: Scalar::Finite(o.2) });
    // a = d.d
    lemma_mul_exact(ONE, ONE, ONE);
    lemma_mul_exact((-ONE) as i64, (-ONE) as i64, ONE);
    lemma_mul_exact(0, 0, 0);
    assert(ray.direction.dot_spec(ray.direction) == Scalar::Finite(ONE));
    // k.d
    lemma_mul_by_unit(o.0, d.0);
    lemma_mul_by_unit(o.1, d.1);
    lemma_mul_by_unit(o.2, d.2);
    let kd = k.dot_spec(ray.direction);
    assert(kd == Scalar::Finite(toward as i64));
    // b = 2 k.d
    lemma_mul_exact(TWO, toward as i64, (2 * toward) as i64);
    let b = Scalar::Finite(TWO).mul_spec(kd);
    assert(b == Scalar::Finite((2 * toward) as i64));
    // c = k.k - r^2
    lemma_mul_exact(along, along, a2 as i64);
    lemma_mul_exact(first, first, f2 as i64);
    lemma_mul_exact(second, second, s2 as i64);
    lemma_mul_exact(radius, radius, r2 as i64);
    let kk = k.dot_spec(k);
    assert(kk == Scalar::Finite((a2 + f2 + s2) as i64));
    let c = kk.sub_spec(sphere.radius.mul_spec(sphere.radius));
    assert(c == Scalar::Finite((a2 + f2 + s2 - r2) as i64));
    // b^2 - 4ac
    assert((2 * toward) * (2 * toward) == (4 * a2) * ONE) by (nonlinear_arith)
        requires
            along * along == a2 * ONE,
            toward == along || toward == -along,
    ;
    lemma_mul_exact((2 * toward) as i64, (2 * toward) as i64, (4 * a2) as i64);
    lemma_mul_exact(FOUR, ONE, FOUR);
    assert(FOUR * (a2 + f2 + s2 - r2) == (4 * (a2 + f2 + s2 - r2)) * ONE) by (nonlinear_arith);
    lemma_mul_exact(FOUR, (a2 + f2 + s2 - r2) as i64, (4 * (a2 + f2 + s2 - r2)) as i64);
    assert(b.mul_spec(b) == Scalar::Finite((4 * a2) as i64));
    assert(Scalar::Finite(FOUR).mul_spec(Scalar::Finite(ONE)).mul_spec(c) == Scalar::Finite(
        (4 * (a2 + f2 + s2 - r2)) as i64,
    ));
}

/// A ray that starts outside a sphere about the origin, on the line
/// through its centre, and runs toward it along an axis, from either
/// side, meets the sphere at the distance less the radius and again, on
/// the far side, at the distance plus the radius; the first is the hit.
/// This holds wherever no square needs rounding and four times the squared
/// distance is a number.
pub proof fn law_center_line_hits(radius: i64, distance: i64, axis: Axis, down: bool)
    requires
        has_exact_square(radius as int),
        has_exact_square(distance as int),
        0 <= radius < distance,
        4 * square_raw(distance as int) <= i64::MAX,
    ensures
        ({
            let start = if down {
                distance
            } else {
                (-distance) as i64
            };
            let ray = axis_ray(axis, down, start, 0, 0);
            &&& sphere_at_origin(radius).roots_spec(ray) == Some(
                (
                    Scalar::Finite((distance - radius) as i64),
                    Scalar::Finite((distance + radius) as i64),
                ),
            )
            &&& sphere_at_origin(radius).intersect_spec(ray) == Intersection::Intersect(
                Scalar::Finite((distance - radius) as i64),
            )
        }),
{
    let start: i64 = if down {
        distance
    } else {
        (-distance) as i64
    };
    let sphere = sphere_at_origin(radius);
    let ray = axis_ray(axis, down, start, 0, 0);
    let r2 = square_raw(radius as int);
    lemma_exact_square(distance as int);
    lemma_exact_square(radius as int);
    lemma_square_raw_monotone(radius as int, distance as int);
    assert(start * start == distance * distance) by (nonlinear_arith)
        requires
            start == distance || start == -distance,
    ;
    assert(square_raw(0) == 0);
    lemma_axis_quadratic(radius, axis, down, start, 0, 0);
    let discriminant = sphere.discriminant_spec(ray);
    assert(discriminant == Scalar::Finite((4 * r2) as i64));
    assert((4 * r2) * ONE == (2 * radius) * (2 * radius)) by (nonlinear_arith)
        requires
            radius * radius == r2 * ONE,
    ;
    lemma_sqrt_exact((4 * r2) as i64, (2 * radius) as i64);
    lemma_mul_exact(TWO, ONE, TWO);
    assert((2 * distance - 2 * radius) * ONE == (distance - radius) * TWO) by (nonlinear_arith);
    assert((2 * distance + 2 * radius) * ONE == (distance + radius) * TWO) by (nonlinear_arith);
    lemma_div_exact((2 * distance - 2 * radius) as i64, TWO, (distance - radius) as i64);
    lemma_div_exact((2 * distance + 2 * radius) as i64, TWO, (distance + radius) as i64);
}

/// A ray parallel to an axis that passes a sphere about the origin at a
/// distance greater than the radius does not meet it, wherever on its line
/// it starts and whichever way it runs. This holds wherever no square
/// needs rounding and the quadratic stays inside the finite range.
pub proof fn law_passing_ray_misses(
    radius: i64,
    axis: Axis,
    down: bool,
    along: i64,
    first: i64,
    second: i64,
)
    requires
        has_exact_square(radius as int),
        has_exact_square(along as int),
        has_exact_square(first as int),
        has_exact_square(second as int),
        quadratic_fits(radius as int, along as int, first as int, second as int),
        square_raw(radius as int) < square_raw(first as int) + square_raw(second as int),
    ensures
        sphere_at_origin(radius).roots_spec(axis_ray(axis, down, along, first, second)) is None,
        sphere_at_origin(radius).intersect_spec(axis_ray(axis, down, along, first, second))
            is DoesNotIntersect,
{
    lemma_axis_quadratic(radius, axis, down, along, first, second);
    lemma_exact_square(radius as int);
    lemma_exact_square(along as int);
    lemma_exact_square(first as int);
    lemma_exact_square(second as int);
}

/// Whether a vector of numbers has exactly unit length: its squared raw
/// components add up to the square of one, nothing rounded.
pub open spec fn has_unit_length(u: Vector) -> bool {
    u.is_finite() && u.x.raw() * u.x.raw() + u.y.raw() * u.y.raw() + u.z.raw() * u.z.raw() == ONE
        * ONE
}

/// The unit vector along `axis`, pointing toward larger coordinates if
/// `up` and toward smaller ones if not.
pub open spec fn axis_unit(axis: Axis, up: bool) -> Vector {
    let d = arrange(
        axis,
        if up {
            ONE
        } else {
            (-ONE) as i64
        },
        0,
        0,
    );
    Vector { x: Scalar::Finite(d.0), y: Scalar::Finite(d.1), z: Scalar::Finite(d.2) }
}

/// The vectors of exactly unit length are the six unit vectors along the
/// axes: with 32 fractional bits no other direction has a length of
/// exactly one.
pub proof fn law_unit_vectors_are_axes(u: Vector)
    requires
        has_unit_length(u),
    ensures
        exists|axis: Axis, up: bool| u == axis_unit(axis, up),
{
    let x = u.x.raw();
    let y = u.y.raw();
    let z = u.z.raw();
    reveal_with_fuel(four_to, 33);
    assert(four_to(32) == ONE * ONE);
    lemma_three_squares(x, y, z, 32);
    assert(0 * 0 == 0);
    if y == 0 && z == 0 {
        assert(x == ONE || x == -ONE) by (nonlinear_arith)
            requires
                x * x == 0x1_0000_0000 * 0x1_0000_0000,
        ;
        assert(u == axis_unit(Axis::X, x == ONE));
    } else if x == 0 && z == 0 {
        assert(y == ONE || y == -ONE) by (nonlinear_arith)
            requires
                y * y == 0x1_0000_0000 * 0x1_0000_0000,
        ;
        assert(u == axis_unit(Axis::Y, y == ONE));
    } else {
        assert(z == ONE || z == -ONE) by (nonlinear_arith)
            requires
                z * z == 0x1_0000_0000 * 0x1_0000_0000,
        ;
        assert(u == axis_unit(Axis::Z, z == ONE));
    }
}

/// The ray that starts at `distance` from the origin in the direction `u`
/// and runs back toward the origin, against `u`.
pub open spec fn center_line_ray(u: Vector, distance: i64) -> Ray {
    let start = u.scale_spec(Scalar::Finite(distance));
    Ray { origin: Point { x: start.x, y: start.y, z: start.z }, direction: u.neg_spec() }
}

/// A ray that starts outside a sphere about the origin, at `distance`
/// from the centre in any direction of exactly unit length, and runs
/// toward the centre, meets the sphere at the distance less the radius and
/// again, on the far side, at the distance plus the radius; the first is
/// the hit and the second never is. This holds wherever no square needs
/// rounding and four times the squared distance is a number.
pub proof fn law_center_line_hits_from_any_side(radius: i64, distance: i64, u: Vector)
    requires
        has_unit_length(u),
        has_exact_square(radius as int),
        has_exact_square(distance as int),
        0 <= radius < distance,
        4 * square_raw(distance as int) <= i64::MAX,
    ensures
        sphere_at_origin(radius).roots_spec(center_line_ray(u, distance)) == Some(
            (Scalar::Finite((distance - radius) as i64), Scalar::Finite((distance + radius) as i64)),
        ),
        sphere_at_origin(radius).intersect_spec(center_line_ray(u, distance))
            == Intersection::Intersect(Scalar::Finite((distance - radius) as i64)),
{
    law_unit_vectors_are_axes(u);
    let (axis, up): (Axis, bool) = choose|axis: Axis, up: bool| u == axis_unit(axis, up);
    lemma_exact_square(distance as int);
    lemma_mul_one(Scalar::Finite(distance));
    lemma_mul_zero(Scalar::Finite(distance));
    lemma_mul_exact((-ONE) as i64, distance, (-distance) as i64);
    let start: i64 = if up {
        distance
    } else {
        (-distance) as i64
    };
    assert(center_line_ray(u, distance) == axis_ray(axis, up, start, 0, 0));
    law_center_line_hits(radius, distance, axis, up);
}

} // verus!
