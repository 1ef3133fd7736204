//! Free displacements and directions.
use crate::arith::{
    floor_sqrt, integer_sqrt, lemma_floor_sqrt_exists, lemma_floor_sqrt_monotone,
    lemma_floor_sqrt_of_square, lemma_product_magnitude, magnitude, magnitude_of, quot,
};
use crate::geometry::normal::{is_unit_bounded, Normal};
use crate::geometry::point::Point;
use crate::scalar::{from_wide, Scalar, ONE};
use vstd::prelude::*;

verus! {

/// A displacement or direction, of any length.
#[derive(Clone, Copy, Debug, PartialEq, Eq, Structural)]
pub struct Vector {
    pub x: Scalar,
    pub y: Scalar,
    pub z: Scalar,
}

/// The raw integer square root of `a^2 + b^2 + c^2`: the exact Euclidean
/// norm of three raw components, rounded toward zero once.
pub open spec fn norm_of(a: int, b: int, c: int) -> int {
    floor_sqrt(a * a + b * b + c * c)
}

/// A raw component divided by a raw norm, as a scalar.
pub open spec fn unit_of(a: int, norm: int) -> Scalar {
    from_wide(quot(a * ONE, norm))
}

impl Vector {
    /// Every component is a number.
    pub open spec fn is_finite(self) -> bool {
        self.x is Finite && self.y is Finite && self.z is Finite
    }

    /// Some component is undefined.
    pub open spec fn has_nan(self) -> bool {
        self.x is Nan || self.y is Nan || self.z is Nan
    }

    /// The vector all of whose components are zero.
    pub open spec fn zero_spec() -> Vector {
        Vector { x: Scalar::Finite(0), y: Scalar::Finite(0), z: Scalar::Finite(0) }
    }

    /// The raw Euclidean norm of a vector of numbers.
    pub open spec fn norm_raw(self) -> int {
        norm_of(self.x.raw(), self.y.raw(), self.z.raw())
    }

    /// The dot product, each product and each sum rounded as scalars are.
    pub open spec fn dot_spec(self, other: Vector) -> Scalar {
        self.x.mul_spec(other.x).add_spec(self.y.mul_spec(other.y)).add_spec(
            self.z.mul_spec(other.z),
        )
    }

    /// The cross product.
    pub open spec fn cross_spec(self, other: Vector) -> Vector {
        Vector {
            x: self.y.mul_spec(other.z).sub_spec(self.z.mul_spec(other.y)),
            y: self.z.mul_spec(other.x).sub_spec(self.x.mul_spec(other.z)),
            z: self.x.mul_spec(other.y).sub_spec(self.y.mul_spec(other.x)),
        }
    }

    /// The Euclidean norm. It is computed from the exact sum of the squared
    /// raw components, so it is rounded only once. A vector with an
    /// undefined component has an undefined length, and one with an infinite
    /// component an infinite length.
    pub open spec fn length_spec(self) -> Scalar {
        if self.has_nan() {
            Scalar::Nan
        } else if !self.is_finite() {
            Scalar::Infinity
        } else {
            from_wide(self.norm_raw())
        }
    }

    /// The direction of the vector as a normal: each component divided by
    /// the exact norm. What has no direction (the zero vector, every vector
    /// shorter than the smallest positive scalar can tell, and every vector
    /// with a component that is not a number) gives the zero normal.
    pub open spec fn normalize_spec(self) -> Normal {
        if self.is_finite() && self.norm_raw() > 0 {
            Normal {
                x: unit_of(self.x.raw(), self.norm_raw()),
                y: unit_of(self.y.raw(), self.norm_raw()),
                z: unit_of(self.z.raw(), self.norm_raw()),
            }
        } else {
            Normal::zero_spec()
        }
    }

    /// The sum, component by component.
    pub open spec fn add_spec(self, other: Vector) -> Vector {
        Vector {
            x: self.x.add_spec(other.x),
            y: self.y.add_spec(other.y),
            z: self.z.add_spec(other.z),
        }
    }

    /// The difference, component by component.
    pub open spec fn sub_spec(self, other: Vector) -> Vector {
        Vector {
            x: self.x.sub_spec(other.x),
            y: self.y.sub_spec(other.y),
            z: self.z.sub_spec(other.z),
        }
    }

    /// Each component divided by `divisor`.
    pub open spec fn div_spec(self, divisor: Scalar) -> Vector {
        Vector {
            x: self.x.div_spec(divisor),
            y: self.y.div_spec(divisor),
            z: self.z.div_spec(divisor),
        }
    }

    /// Each component multiplied by `factor`.
    pub open spec fn scale_spec(self, factor: Scalar) -> Vector {
        Vector {
            x: self.x.mul_spec(factor),
            y: self.y.mul_spec(factor),
            z: self.z.mul_spec(factor),
        }
    }

    /// The opposite vector.
    pub open spec fn neg_spec(self) -> Vector {
        Vector { x: self.x.neg_spec(), y: self.y.neg_spec(), z: self.z.neg_spec() }
    }

    /// The vector with the given components.
    pub fn new(x: Scalar, y: Scalar, z: Scalar) -> (r: Vector)
        ensures
            r == (Vector { x, y, z }),
    {
        Vector { x, y, z }
    }

    /// The dot product.
    pub fn dot(&self, other: Vector) -> (r: Scalar)
        ensures
            r == self.dot_spec(other),
    {
        self.x.mul(other.x).add(self.y.mul(other.y)).add(self.z.mul(other.z))
    }

    /// The Euclidean norm.
    pub fn length(&self) -> (r: Scalar)
        ensures
            r == self.length_spec(),
            !self.has_nan() ==> Scalar::Finite(0).le_spec(r),
    {
        match (self.x, self.y, self.z) {
            (Scalar::Finite(a), Scalar::Finite(b), Scalar::Finite(c)) => {
                let norm: u64 = wide_norm(a, b, c);
                if norm > 0x7fff_ffff_ffff_ffff {
                    Scalar::Infinity
                } else {
                    Scalar::Finite(norm as i64)
                }
            },
            _ => {
                if self.x.is_nan() || self.y.is_nan() || self.z.is_nan() {
                    Scalar::Nan
                } else {
                    Scalar::Infinity
                }
            },
        }
    }

    /// The cross product.
    pub fn cross(&self, other: Vector) -> (r: Vector)
        ensures
            r == self.cross_spec(other),
    {
        Vector {
            x: self.y.mul(other.z).sub(self.z.mul(other.y)),
            y: self.z.mul(other.x).sub(self.x.mul(other.z)),
            z: self.x.mul(other.y).sub(self.y.mul(other.x)),
        }
    }

    /// The direction of the vector as a normal, and the zero normal for
    /// what has no direction.
    pub fn normalize(&self) -> (r: Normal)
        ensures
            r == self.normalize_spec(),
            r.wf(),
            *self == Vector::zero_spec() ==> r == Normal::zero_spec(),
    {
        proof {
            lemma_floor_sqrt_of_square(0);
        }
        match (self.x, self.y, self.z) {
            (Scalar::Finite(a), Scalar::Finite(b), Scalar::Finite(c)) => {
                let norm: u64 = wide_norm(a, b, c);
                if norm == 0 {
                    Normal::zero()
                } else {
                    Normal {
                        x: unit_component(a, norm),
                        y: unit_component(b, norm),
                        z: unit_component(c, norm),
                    }
                }
            },
            _ => Normal::zero(),
        }
    }

    /// The dot product, under the name of the operator it stands for.
    pub fn mul(self, other: Vector) -> (r: Scalar)
        ensures
            r == self.dot_spec(other),
    {
        self.dot(other)
    }

    /// The sum.
    pub fn add(self, other: Vector) -> (r: Vector)
        ensures
            r == self.add_spec(other),
    {
        Vector { x: self.x.add(other.x), y: self.y.add(other.y), z: self.z.add(other.z) }
    }

    /// The difference.
    pub fn sub(self, other: Vector) -> (r: Vector)
        ensures
            r == self.sub_spec(other),
    {
        Vector { x: self.x.sub(other.x), y: self.y.sub(other.y), z: self.z.sub(other.z) }
    }

    /// Each component divided by `divisor`.
    pub fn div(self, divisor: Scalar) -> (r: Vector)
        ensures
            r == self.div_spec(divisor),
    {
        Vector { x: self.x.div(divisor), y: self.y.div(divisor), z: self.z.div(divisor) }
    }

    /// Each component multiplied by `factor`.
    pub fn scale(self, factor: Scalar) -> (r: Vector)
        ensures
            r == self.scale_spec(factor),
    {
        Vector { x: self.x.mul(factor), y: self.y.mul(factor), z: self.z.mul(factor) }
    }

    /// The opposite vector.
    pub fn neg(self) -> (r: Vector)
        ensures
            r == self.neg_spec(),
    {
        Vector { x: self.x.neg(), y: self.y.neg(), z: self.z.neg() }
    }
}

impl From<Point> for Vector {
    fn from(point: Point) -> (r: Vector) {
        Vector { x: point.x, y: point.y, z: point.z }
    }
}

impl vstd::std_specs::convert::FromSpecImpl<Point> for Vector {
    open spec fn obeys_from_spec() -> bool {
        true
    }

    open spec fn from_spec(point: Point) -> Vector {
        Vector { x: point.x, y: point.y, z: point.z }
    }
}

impl From<Normal> for Vector {
    fn from(normal: Normal) -> (r: Vector) {
        Vector { x: normal.x, y: normal.y, z: normal.z }
    }
}

impl vstd::std_specs::convert::FromSpecImpl<Normal> for Vector {
    open spec fn obeys_from_spec() -> bool {
        true
    }

    open spec fn from_spec(normal: Normal) -> Vector {
        Vector { x: normal.x, y: normal.y, z: normal.z }
    }
}

/// The norm of three raw components is at least the magnitude of each.
pub proof fn lemma_norm_dominates(a: int, b: int, c: int)
    ensures
        magnitude(a) <= norm_of(a, b, c),
        magnitude(b) <= norm_of(a, b, c),
        magnitude(c) <= norm_of(a, b, c),
        0 <= norm_of(a, b, c),
{
    let ma = magnitude(a);
    let mb = magnitude(b);
    let mc = magnitude(c);
    assert(ma * ma == a * a && mb * mb == b * b && mc * mc == c * c) by (nonlinear_arith)
        requires
            ma == magnitude(a),
            mb == magnitude(b),
            mc == magnitude(c),
    ;
    assert(0 <= a * a && 0 <= b * b && 0 <= c * c) by (nonlinear_arith);
    let sum = a * a + b * b + c * c;
    lemma_floor_sqrt_exists(sum);
    lemma_floor_sqrt_of_square(ma);
    lemma_floor_sqrt_of_square(mb);
    lemma_floor_sqrt_of_square(mc);
    lemma_floor_sqrt_monotone(ma * ma, sum);
    lemma_floor_sqrt_monotone(mb * mb, sum);
    lemma_floor_sqrt_monotone(mc * mc, sum);
}

/// A raw component divided by a norm that is at least its magnitude lies
/// between minus one and one.
pub proof fn lemma_unit_of_bounded(a: int, norm: int)
    requires
        0 < norm,
        magnitude(a) <= norm,
    ensures
        is_unit_bounded(unit_of(a, norm)),
        unit_of(a, norm) == Scalar::Finite(quot(a * ONE, norm) as i64),
{
    let m = magnitude(a);
    lemma_product_magnitude(a, ONE as int);
    let q = (m * ONE) / norm;
    assert(0 <= q <= ONE) by (nonlinear_arith)
        requires
            q == (m * ONE) / norm,
            0 <= m <= norm,
            0 < norm,
            ONE == 0x1_0000_0000,
    ;
}

/// Whatever the vector, each component of its direction is a number
/// between minus one and one.
pub proof fn law_direction_is_bounded(v: Vector)
    ensures
        v.normalize_spec().wf(),
{
    if v.is_finite() && v.norm_raw() > 0 {
        lemma_norm_dominates(v.x.raw(), v.y.raw(), v.z.raw());
        lemma_unit_of_bounded(v.x.raw(), v.norm_raw());
        lemma_unit_of_bounded(v.y.raw(), v.norm_raw());
        lemma_unit_of_bounded(v.z.raw(), v.norm_raw());
    }
}

/// The zero vector has the zero normal for its direction.
pub proof fn law_zero_has_no_direction()
    ensures
        Vector::zero_spec().normalize_spec() == Normal::zero_spec(),
{
    lemma_floor_sqrt_of_square(0);
}

fn wide_norm(a: i64, b: i64, c: i64) -> (norm: u64)
    ensures
        norm == norm_of(a as int, b as int, c as int),
        magnitude(a as int) <= norm,
        magnitude(b as int) <= norm,
        magnitude(c as int) <= norm,
{
    let ma: u128 = magnitude_of(a);
    let mb: u128 = magnitude_of(b);
    let mc: u128 = magnitude_of(c);
    proof {
        lemma_norm_dominates(a as int, b as int, c as int);
        lemma_square_of_magnitude(a as int);
        lemma_square_of_magnitude(b as int);
        lemma_square_of_magnitude(c as int);
    }
    let sum: u128 = ma * ma + mb * mb + mc * mc;
    integer_sqrt(sum)
}

/// The square of a 64-bit magnitude is the square of the integer, and it
/// stays well inside 128 bits.
proof fn lemma_square_of_magnitude(a: int)
    by (nonlinear_arith)
    requires
        -0x8000_0000_0000_0000 <= a <= 0x8000_0000_0000_0000,
    ensures
        magnitude(a) * magnitude(a) == a * a,
        0 <= a * a <= 0x4000_0000_0000_0000_0000_0000_0000_0000,
{
}

fn unit_component(a: i64, norm: u64) -> (r: Scalar)
    requires
        0 < norm,
        magnitude(a as int) <= norm,
    ensures
        r == unit_of(a as int, norm as int),
        is_unit_bounded(r),
{
    let m: u128 = magnitude_of(a);
    proof {
        lemma_unit_of_bounded(a as int, norm as int);
        lemma_product_magnitude(a as int, ONE as int);
    }
    let q: u128 = (m * 0x1_0000_0000) / (norm as u128);
    if a < 0 {
        let wide: i128 = -(q as i128);
        Scalar::Finite(wide as i64)
    } else {
        Scalar::Finite(q as i64)
    }
}

} // verus!
