//! Fixed-size matrices, their product, and the 4x4 matrices that rotate,
//! scale and translate.
//!
//! A 4x4 matrix acts on a point or a vector through a column of four: the
//! three components and a fourth entry that is one for a point and zero for
//! a vector. A translation therefore moves points and leaves vectors alone.
use crate::geometry::normal::Normal;
use crate::geometry::point::Point;
use crate::geometry::vector::Vector;
use crate::geometry::Angle;
use crate::scalar::{lemma_mul_one, lemma_mul_zero, Scalar, ONE};
use vstd::prelude::*;

verus! {

/// A grid of `ROW` rows and `COLUMN` columns of scalars.
#[derive(Clone, Copy, Debug, PartialEq)]
pub struct Matrix<const ROW: usize, const COLUMN: usize> {
    pub data: [[Scalar; COLUMN]; ROW],
}

/// The sum of the first `n` products of row `i` of `a` with column `j` of
/// `b`, added from the left starting at zero.
pub open spec fn inner_product<const ROW: usize, const INNER: usize, const COLUMN: usize>(
    a: Matrix<ROW, INNER>,
    b: Matrix<INNER, COLUMN>,
    i: int,
    j: int,
    n: nat,
) -> Scalar
    decreases n,
{
    if n == 0 {
        Scalar::Finite(0)
    } else {
        inner_product(a, b, i, j, (n - 1) as nat).add_spec(
            a.at(i, n - 1).mul_spec(b.at(n - 1, j)),
        )
    }
}

/// The column that stands for a point: its coordinates above a one.
pub open spec fn from_point_spec(point: Point) -> Matrix<4, 1> {
    Matrix { data: [[point.x], [point.y], [point.z], [Scalar::Finite(ONE)]] }
}

/// The column that stands for a vector: its components above a zero.
pub open spec fn from_vector_spec(vector: Vector) -> Matrix<4, 1> {
    Matrix { data: [[vector.x], [vector.y], [vector.z], [Scalar::Finite(0)]] }
}

impl<const ROW: usize, const COLUMN: usize> Matrix<ROW, COLUMN> {
    /// The entry in row `i` and column `j`.
    pub open spec fn at(self, i: int, j: int) -> Scalar {
        self.data[i][j]
    }

    /// Whether `product` is the matrix product of `self` and `rhs`.
    pub open spec fn is_product<const COLUMN2: usize>(
        self,
        rhs: Matrix<COLUMN, COLUMN2>,
        product: Matrix<ROW, COLUMN2>,
    ) -> bool {
        forall|i: int, j: int|
            0 <= i < ROW && 0 <= j < COLUMN2 ==> #[trigger] product.at(i, j) == inner_product(
                self,
                rhs,
                i,
                j,
                COLUMN as nat,
            )
    }

    /// The matrix all of whose entries are zero.
    pub fn new() -> (r: Self)
        ensures
            forall|i: int, j: int|
                0 <= i < ROW && 0 <= j < COLUMN ==> #[trigger] r.at(i, j) == Scalar::Finite(0),
    {
        Matrix { data: [[Scalar::Finite(0); COLUMN]; ROW] }
    }

    /// The matrix with the given rows.
    pub fn with_data(data: [[Scalar; COLUMN]; ROW]) -> (r: Self)
        ensures
            r.data == data,
    {
        Matrix { data }
    }

    /// The row of the given number.
    pub fn index(&self, row: usize) -> (r: &[Scalar; COLUMN])
        requires
            row < ROW,
        ensures
            *r == self.data[row as int],
    {
        &self.data[row]
    }

    /// Reads the entry in row `row` and column `column`.
    pub fn get(&self, row: usize, column: usize) -> (r: Scalar)
        requires
            row < ROW,
            column < COLUMN,
        ensures
            r == self.at(row as int, column as int),
    {
        self.data[row][column]
    }

    /// Writes the entry in row `row` and column `column`, and no other.
    pub fn set(&mut self, row: usize, column: usize, value: Scalar)
        requires
            row < ROW,
            column < COLUMN,
        ensures
            final(self).at(row as int, column as int) == value,
            forall|i: int, j: int|
                0 <= i < ROW && 0 <= j < COLUMN && !(i == row && j == column)
                    ==> #[trigger] final(self).at(i, j) == old(self).at(i, j),
    {
        self.data[row][column] = value;
    }

    /// The matrix product. That the inner dimensions agree is a matter of
    /// the types.
    pub fn mul<const COLUMN2: usize>(&self, rhs: &Matrix<COLUMN, COLUMN2>) -> (r: Matrix<
        ROW,
        COLUMN2,
    >)
        ensures
            self.is_product(*rhs, r),
    {
        let mut data: [[Scalar; COLUMN2]; ROW] = [[Scalar::Finite(0); COLUMN2]; ROW];
        let mut i: usize = 0;
        while i < ROW
            invariant
                i <= ROW,
                forall|p: int, q: int|
                    0 <= p < i && 0 <= q < COLUMN2 ==> #[trigger] data[p][q] == inner_product(
                        *self,
                        *rhs,
                        p,
                        q,
                        COLUMN as nat,
                    ),
            decreases ROW - i,
        {
            let mut j: usize = 0;
            while j < COLUMN2
                invariant
                    i < ROW,
                    j <= COLUMN2,
                    forall|p: int, q: int|
                        0 <= p < i && 0 <= q < COLUMN2 ==> #[trigger] data[p][q] == inner_product(
                            *self,
                            *rhs,
                            p,
                            q,
                            COLUMN as nat,
                        ),
                    forall|q: int|
                        0 <= q < j ==> #[trigger] data[i as int][q] == inner_product(
                            *self,
                            *rhs,
                            i as int,
                            q,
                            COLUMN as nat,
                        ),
                decreases COLUMN2 - j,
            {
                let mut sum: Scalar = Scalar::Finite(0);
                let mut k: usize = 0;
                while k < COLUMN
                    invariant
                        i < ROW,
                        j < COLUMN2,
                        k <= COLUMN,
                        sum == inner_product(*self, *rhs, i as int, j as int, k as nat),
                    decreases COLUMN - k,
                {
                    sum = sum.add(self.data[i][k].mul(rhs.data[k][j]));
                    k = k + 1;
                }
                data[i][j] = sum;
                j = j + 1;
            }
            i = i + 1;
        }
        Matrix { data }
    }
}

impl Matrix<4, 4> {
    /// Row `i` applied to the column `(x, y, z, w)`.
    pub open spec fn row_times(self, i: int, x: Scalar, y: Scalar, z: Scalar, w: Scalar) -> Scalar {
        Scalar::Finite(0).add_spec(self.at(i, 0).mul_spec(x)).add_spec(
            self.at(i, 1).mul_spec(y),
        ).add_spec(self.at(i, 2).mul_spec(z)).add_spec(self.at(i, 3).mul_spec(w))
    }

    /// The matrix applied to a vector: the fourth entry of the column is
    /// zero, and the fourth row of the result is dropped.
    pub open spec fn mul_vector_spec(self, v: Vector) -> Vector {
        Vector {
            x: self.row_times(0, v.x, v.y, v.z, Scalar::Finite(0)),
            y: self.row_times(1, v.x, v.y, v.z, Scalar::Finite(0)),
            z: self.row_times(2, v.x, v.y, v.z, Scalar::Finite(0)),
        }
    }

    /// The matrix applied to a point: the fourth entry of the column is
    /// one, and the fourth row of the result is dropped.
    pub open spec fn mul_point_spec(self, p: Point) -> Point {
        Point {
            x: self.row_times(0, p.x, p.y, p.z, Scalar::Finite(ONE)),
            y: self.row_times(1, p.x, p.y, p.z, Scalar::Finite(ONE)),
            z: self.row_times(2, p.x, p.y, p.z, Scalar::Finite(ONE)),
        }
    }

    /// The matrix applied to a normal as to a vector, and the result
    /// normalised again.
    pub open spec fn mul_normal_spec(self, n: Normal) -> Normal {
        self.mul_vector_spec(Vector { x: n.x, y: n.y, z: n.z }).normalize_spec()
    }

    /// The right-handed rotation about the x axis.
    pub open spec fn rotation_x_spec(angle: Angle) -> Matrix<4, 4> {
        let c = angle.cos;
        let s = angle.sin;
        let o = Scalar::Finite(0);
        let l = Scalar::Finite(ONE);
        Matrix { data: [[l, o, o, o], [o, c, s.neg_spec(), o], [o, s, c, o], [o, o, o, l]] }
    }

    /// The right-handed rotation about the y axis.
    pub open spec fn rotation_y_spec(angle: Angle) -> Matrix<4, 4> {
        let c = angle.cos;
        let s = angle.sin;
        let o = Scalar::Finite(0);
        let l = Scalar::Finite(ONE);
        Matrix { data: [[c, o, s, o], [o, l, o, o], [s.neg_spec(), o, c, o], [o, o, o, l]] }
    }

    /// The right-handed rotation about the z axis.
    pub open spec fn rotation_z_spec(angle: Angle) -> Matrix<4, 4> {
        let c = angle.cos;
        let s = angle.sin;
        let o = Scalar::Finite(0);
        let l = Scalar::Finite(ONE);
        Matrix { data: [[c, s.neg_spec(), o, o], [s, c, o, o], [o, o, l, o], [o, o, o, l]] }
    }

    /// The matrix that changes nothing: ones on the diagonal and zeros
    /// elsewhere.
    pub open spec fn identity_spec() -> Matrix<4, 4> {
        let o = Scalar::Finite(0);
        let l = Scalar::Finite(ONE);
        Matrix { data: [[l, o, o, o], [o, l, o, o], [o, o, l, o], [o, o, o, l]] }
    }

    /// The matrix that multiplies each axis by the matching component.
    pub open spec fn scale_spec(v: Vector) -> Matrix<4, 4> {
        let o = Scalar::Finite(0);
        let l = Scalar::Finite(ONE);
        Matrix { data: [[v.x, o, o, o], [o, v.y, o, o], [o, o, v.z, o], [o, o, o, l]] }
    }

    /// The matrix that moves every point by `v`.
    pub open spec fn translation_spec(v: Vector) -> Matrix<4, 4> {
        let o = Scalar::Finite(0);
        let l = Scalar::Finite(ONE);
        Matrix { data: [[l, o, o, v.x], [o, l, o, v.y], [o, o, l, v.z], [o, o, o, l]] }
    }

    /// The right-handed rotation about the x axis by the given angle.
    pub fn rotation_x(angle: Angle) -> (r: Matrix<4, 4>)
        ensures
            r == Self::rotation_x_spec(angle),
    {
        let c: Scalar = angle.cos;
        let s: Scalar = angle.sin;
        let o: Scalar = Scalar::Finite(0);
        let l: Scalar = Scalar::Finite(ONE);
        Matrix { data: [[l, o, o, o], [o, c, s.neg(), o], [o, s, c, o], [o, o, o, l]] }
    }

    /// The right-handed rotation about the y axis by the given angle.
    pub fn rotation_y(angle: Angle) -> (r: Matrix<4, 4>)
        ensures
            r == Self::rotation_y_spec(angle),
    {
        let c: Scalar = angle.cos;
        let s: Scalar = angle.sin;
        let o: Scalar = Scalar::Finite(0);
        let l: Scalar = Scalar::Finite(ONE);
        Matrix { data: [[c, o, s, o], [o, l, o, o], [s.neg(), o, c, o], [o, o, o, l]] }
    }

    /// The right-handed rotation about the z axis by the given angle.
    pub fn rotation_z(angle: Angle) -> (r: Matrix<4, 4>)
        ensures
            r == Self::rotation_z_spec(angle),
    {
        let c: Scalar = angle.cos;
        let s: Scalar = angle.sin;
        let o: Scalar = Scalar::Finite(0);
        let l: Scalar = Scalar::Finite(ONE);
        Matrix { data: [[c, s.neg(), o, o], [s, c, o, o], [o, o, l, o], [o, o, o, l]] }
    }

    /// The matrix that changes nothing.
    pub fn identity() -> (r: Matrix<4, 4>)
        ensures
            r == Self::identity_spec(),
    {
        let o: Scalar = Scalar::Finite(0);
        let l: Scalar = Scalar::Finite(ONE);
        Matrix { data: [[l, o, o, o], [o, l, o, o], [o, o, l, o], [o, o, o, l]] }
    }

    /// The matrix that multiplies each axis by the matching component of
    /// `vector`.
    pub fn scale(vector: Vector) -> (r: Matrix<4, 4>)
        ensures
            r == Self::scale_spec(vector),
    {
        let o: Scalar = Scalar::Finite(0);
        let l: Scalar = Scalar::Finite(ONE);
        Matrix {
            data: [[vector.x, o, o, o], [o, vector.y, o, o], [o, o, vector.z, o], [o, o, o, l]],
        }
    }

    /// The matrix that moves every point by `vector`.
    pub fn translation(vector: Vector) -> (r: Matrix<4, 4>)
        ensures
            r == Self::translation_spec(vector),
    {
        let o: Scalar = Scalar::Finite(0);
        let l: Scalar = Scalar::Finite(ONE);
        Matrix {
            data: [[l, o, o, vector.x], [o, l, o, vector.y], [o, o, l, vector.z], [o, o, o, l]],
        }
    }

    /// Applies the matrix to a vector. A translation leaves it alone.
    pub fn mul_vector(&self, rhs: Vector) -> (r: Vector)
        ensures
            r == self.mul_vector_spec(rhs),
    {
        let column: Matrix<4, 1> = from_vector(rhs);
        let result: Matrix<4, 1> = self.mul(&column);
        proof {
            lemma_column_product(*self, column, result);
        }
        Vector { x: result.get(0, 0), y: result.get(1, 0), z: result.get(2, 0) }
    }

    /// Applies the matrix to a point.
    pub fn mul_point(&self, rhs: Point) -> (r: Point)
        ensures
            r == self.mul_point_spec(rhs),
    {
        let column: Matrix<4, 1> = from_point(rhs);
        let result: Matrix<4, 1> = self.mul(&column);
        proof {
            lemma_column_product(*self, column, result);
        }
        Point { x: result.get(0, 0), y: result.get(1, 0), z: result.get(2, 0) }
    }

    /// Applies the matrix to a normal and normalises the result.
    pub fn mul_normal(&self, rhs: Normal) -> (r: Normal)
        ensures
            r == self.mul_normal_spec(rhs),
            r.wf(),
    {
        self.mul_vector(Vector { x: rhs.x, y: rhs.y, z: rhs.z }).normalize()
    }
}

/// Each entry of the product of a 4x4 matrix with a column is the entry's
/// row applied to the column's four entries.
pub proof fn lemma_column_product(m: Matrix<4, 4>, column: Matrix<4, 1>, product: Matrix<4, 1>)
    requires
        m.is_product(column, product),
    ensures
        forall|i: int|
            0 <= i < 4 ==> #[trigger] product.at(i, 0) == m.row_times(
                i,
                column.at(0, 0),
                column.at(1, 0),
                column.at(2, 0),
                column.at(3, 0),
            ),
{
    reveal_with_fuel(inner_product, 5);
}

/// A translation moves a point of numbers by adding the displacement,
/// coordinate by coordinate.
pub proof fn lemma_translation_adds(v: Vector, p: Point)
    requires
        p.is_finite(),
    ensures
        Matrix::<4, 4>::translation_spec(v).mul_point_spec(p) == p.add_spec(v),
{
    lemma_mul_one(p.x);
    lemma_mul_one(p.y);
    lemma_mul_one(p.z);
    lemma_mul_one(v.x);
    lemma_mul_one(v.y);
    lemma_mul_one(v.z);
    lemma_mul_zero(p.x);
    lemma_mul_zero(p.y);
    lemma_mul_zero(p.z);
}

/// Moving a point by a displacement and then by the opposite displacement
/// gives the point back, as long as the point in between is one of numbers.
pub proof fn law_translation_round_trip(p: Point, v: Vector)
    requires
        p.is_finite(),
        v.is_finite(),
        v.neg_spec().is_finite(),
        p.add_spec(v).is_finite(),
    ensures
        Matrix::<4, 4>::translation_spec(v.neg_spec()).mul_point_spec(
            Matrix::<4, 4>::translation_spec(v).mul_point_spec(p),
        ) == p,
{
    lemma_translation_adds(v, p);
    lemma_translation_adds(v.neg_spec(), p.add_spec(v));
}

/// The product of the translation by a displacement and the translation
/// by the opposite displacement is the matrix that changes nothing.
pub proof fn law_translations_cancel(v: Vector, product: Matrix<4, 4>)
    requires
        v.is_finite(),
        v.neg_spec().is_finite(),
        Matrix::<4, 4>::translation_spec(v.neg_spec()).is_product(
            Matrix::<4, 4>::translation_spec(v),
            product,
        ),
    ensures
        product == Matrix::<4, 4>::identity_spec(),
{
    let back = Matrix::<4, 4>::translation_spec(v.neg_spec());
    let there = Matrix::<4, 4>::translation_spec(v);
    let same = Matrix::<4, 4>::identity_spec();
    reveal_with_fuel(inner_product, 5);
    lemma_mul_one(v.x);
    lemma_mul_one(v.y);
    lemma_mul_one(v.z);
    lemma_mul_one(v.neg_spec().x);
    lemma_mul_one(v.neg_spec().y);
    lemma_mul_one(v.neg_spec().z);
    lemma_mul_one(Scalar::Finite(0));
    lemma_mul_one(Scalar::Finite(ONE));
    lemma_mul_zero(v.x);
    lemma_mul_zero(v.y);
    lemma_mul_zero(v.z);
    lemma_mul_zero(v.neg_spec().x);
    lemma_mul_zero(v.neg_spec().y);
    lemma_mul_zero(v.neg_spec().z);
    lemma_mul_zero(Scalar::Finite(0));
    assert forall|i: int, j: int| 0 <= i < 4 && 0 <= j < 4 implies product.at(i, j) == same.at(
        i,
        j,
    ) by {
        assert(product.at(i, j) == inner_product(back, there, i, j, 4));
    }
    assert forall|i: int| 0 <= i < 4 implies product.data[i] == same.data[i] by {
        assert(product.at(i, 0) == same.at(i, 0));
        assert(product.at(i, 1) == same.at(i, 1));
        assert(product.at(i, 2) == same.at(i, 2));
        assert(product.at(i, 3) == same.at(i, 3));
        assert(product.data[i] =~= same.data[i]);
    }
    assert(product.data =~= same.data);
}

/// The matrix that changes nothing leaves every point of numbers where it
/// is.
pub proof fn law_identity_keeps_points(p: Point)
    requires
        p.is_finite(),
    ensures
        Matrix::<4, 4>::identity_spec().mul_point_spec(p) == p,
{
    lemma_mul_one(p.x);
    lemma_mul_one(p.y);
    lemma_mul_one(p.z);
    lemma_mul_one(Scalar::Finite(0));
    lemma_mul_zero(p.x);
    lemma_mul_zero(p.y);
    lemma_mul_zero(p.z);
}

/// The column of four that stands for a point.
pub fn from_point(point: Point) -> (r: Matrix<4, 1>)
    ensures
        r == from_point_spec(point),
{
    Matrix { data: [[point.x], [point.y], [point.z], [Scalar::Finite(ONE)]] }
}

/// The column of four that stands for a vector.
pub fn from_vector(vector: Vector) -> (r: Matrix<4, 1>)
    ensures
        r == from_vector_spec(vector),
{
    Matrix { data: [[vector.x], [vector.y], [vector.z], [Scalar::Finite(0)]] }
}

impl From<Matrix<3, 1>> for Point {
    fn from(matrix: Matrix<3, 1>) -> (r: Point) {
        Point { x: matrix.data[0][0], y: matrix.data[1][0], z: matrix.data[2][0] }
    }
}

impl vstd::std_specs::convert::FromSpecImpl<Matrix<3, 1>> for Point {
    open spec fn obeys_from_spec() -> bool {
        true
    }

    open spec fn from_spec(matrix: Matrix<3, 1>) -> Point {
        Point { x: matrix.at(0, 0), y: matrix.at(1, 0), z: matrix.at(2, 0) }
    }
}

impl From<Matrix<1, 3>> for Point {
    fn from(matrix: Matrix<1, 3>) -> (r: Point) {
        Point { x: matrix.data[0][0], y: matrix.data[0][1], z: matrix.data[0][2] }
    }
}

impl vstd::std_specs::convert::FromSpecImpl<Matrix<1, 3>> for Point {
    open spec fn obeys_from_spec() -> bool {
        true
    }

    open spec fn from_spec(matrix: Matrix<1, 3>) -> Point {
        Point { x: matrix.at(0, 0), y: matrix.at(0, 1), z: matrix.at(0, 2) }
    }
}

} // verus!
