use raytracer::geometry::matrix::{from_point, from_vector, Matrix};
use raytracer::geometry::normal::Normal;
use raytracer::geometry::point::Point;
use raytracer::geometry::vector::Vector;
use raytracer::geometry::{Angle, Axis, Transformation};
use raytracer::scalar::Scalar;

fn s(n: i64) -> Scalar {
    Scalar::from_int(n)
}

fn v(x: i64, y: i64, z: i64) -> Vector {
    Vector::new(s(x), s(y), s(z))
}

fn p(x: i64, y: i64, z: i64) -> Point {
    Point::new(s(x), s(y), s(z))
}

fn quarter_turn() -> Angle {
    Angle::new(s(0), s(1))
}

fn identity() -> Matrix<4, 4> {
    Matrix::<4, 4>::identity()
}

#[test]
fn identity_matrix_layout() {
    assert_eq!(identity(), Matrix::<4, 4>::scale(v(1, 1, 1)));
    assert_eq!(identity(), Matrix::<4, 4>::translation(v(0, 0, 0)));
    assert_eq!(identity().mul_point(p(3, -4, 5)), p(3, -4, 5));
    assert_eq!(identity().mul_vector(v(3, -4, 5)), v(3, -4, 5));
}

#[test]
fn new_matrix_is_all_zero() {
    let m = Matrix::<2, 3>::new();
    for i in 0..2 {
        for j in 0..3 {
            assert_eq!(m.get(i, j), s(0));
        }
    }
}

#[test]
fn entries_can_be_read_and_written() {
    let mut m = Matrix::<2, 2>::with_data([[s(1), s(2)], [s(3), s(4)]]);
    assert_eq!(m.get(0, 1), s(2));
    assert_eq!(m.get(1, 0), s(3));
    assert_eq!(m.index(0), &[s(1), s(2)]);
    assert_eq!(m.index(1)[1], s(4));
    m.set(1, 0, s(9));
    assert_eq!(m, Matrix::<2, 2>::with_data([[s(1), s(2)], [s(9), s(4)]]));
}

#[test]
fn product_of_two_matrices() {
    let a = Matrix::<2, 3>::with_data([[s(1), s(2), s(3)], [s(4), s(5), s(6)]]);
    let b = Matrix::<3, 2>::with_data([[s(7), s(8)], [s(9), s(10)], [s(11), s(12)]]);
    let c: Matrix<2, 2> = a.mul(&b);
    assert_eq!(c, Matrix::<2, 2>::with_data([[s(58), s(64)], [s(139), s(154)]]));
    let d: Matrix<3, 3> = b.mul(&a);
    assert_eq!(
        d,
        Matrix::<3, 3>::with_data([
            [s(39), s(54), s(69)],
            [s(49), s(68), s(87)],
            [s(59), s(82), s(105)]
        ])
    );
}

#[test]
fn product_with_the_identity_changes_nothing() {
    let t = Matrix::<4, 4>::translation(v(1, 2, 3));
    assert_eq!(identity().mul(&t), t);
    assert_eq!(t.mul(&identity()), t);
}

#[test]
fn translation_matrix_layout() {
    let t = Matrix::<4, 4>::translation(v(5, 6, 7));
    assert_eq!(
        t,
        Matrix::<4, 4>::with_data([
            [s(1), s(0), s(0), s(5)],
            [s(0), s(1), s(0), s(6)],
            [s(0), s(0), s(1), s(7)],
            [s(0), s(0), s(0), s(1)]
        ])
    );
}

#[test]
fn scale_matrix_layout() {
    let t = Matrix::<4, 4>::scale(v(2, 3, 4));
    assert_eq!(
        t,
        Matrix::<4, 4>::with_data([
            [s(2), s(0), s(0), s(0)],
            [s(0), s(3), s(0), s(0)],
            [s(0), s(0), s(4), s(0)],
            [s(0), s(0), s(0), s(1)]
        ])
    );
}

#[test]
fn rotation_matrix_layouts() {
    let angle = Angle::new(s(3), s(5));
    assert_eq!(
        Matrix::<4, 4>::rotation_x(angle),
        Matrix::<4, 4>::with_data([
            [s(1), s(0), s(0), s(0)],
            [s(0), s(3), s(-5), s(0)],
            [s(0), s(5), s(3), s(0)],
            [s(0), s(0), s(0), s(1)]
        ])
    );
    assert_eq!(
        Matrix::<4, 4>::rotation_y(angle),
        Matrix::<4, 4>::with_data([
            [s(3), s(0), s(5), s(0)],
            [s(0), s(1), s(0), s(0)],
            [s(-5), s(0), s(3), s(0)],
            [s(0), s(0), s(0), s(1)]
        ])
    );
    assert_eq!(
        Matrix::<4, 4>::rotation_z(angle),
        Matrix::<4, 4>::with_data([
            [s(3), s(-5), s(0), s(0)],
            [s(5), s(3), s(0), s(0)],
            [s(0), s(0), s(1), s(0)],
            [s(0), s(0), s(0), s(1)]
        ])
    );
}

#[test]
fn quarter_turns_are_right_handed() {
    assert_eq!(Matrix::<4, 4>::rotation_z(quarter_turn()).mul_point(p(1, 0, 0)), p(0, 1, 0));
    assert_eq!(Matrix::<4, 4>::rotation_x(quarter_turn()).mul_point(p(0, 1, 0)), p(0, 0, 1));
    assert_eq!(Matrix::<4, 4>::rotation_y(quarter_turn()).mul_point(p(0, 0, 1)), p(1, 0, 0));
    assert_eq!(Matrix::<4, 4>::rotation_z(quarter_turn()).mul_vector(v(0, 1, 0)), v(-1, 0, 0));
}

#[test]
fn translation_moves_points_and_not_vectors() {
    let t = Matrix::<4, 4>::translation(v(5, 6, 7));
    assert_eq!(t.mul_point(p(1, 2, 3)), p(6, 8, 10));
    assert_eq!(t.mul_vector(v(1, 2, 3)), v(1, 2, 3));
}

#[test]
fn translation_there_and_back_returns_the_point() {
    let offset = Vector::new(Scalar::Finite(123_456_789_012), s(-40), Scalar::Finite(-7));
    let start = Point::new(Scalar::Finite(-99), s(1000), Scalar::Finite(1));
    let there = Matrix::<4, 4>::translation(offset).mul_point(start);
    assert_eq!(there, start.add(offset));
    let back = Matrix::<4, 4>::translation(offset.neg()).mul_point(there);
    assert_eq!(back, start);
}

#[test]
fn composed_translations_cancel() {
    let offset = v(3, -4, 5);
    let both = Matrix::<4, 4>::translation(offset.neg()).mul(&Matrix::<4, 4>::translation(offset));
    assert_eq!(both, identity());
    assert_eq!(both.mul_point(p(7, 8, 9)), p(7, 8, 9));
}

#[test]
fn scaling_points_and_vectors() {
    let t = Matrix::<4, 4>::scale(v(2, 3, 4));
    assert_eq!(t.mul_point(p(1, 1, 1)), p(2, 3, 4));
    assert_eq!(t.mul_vector(v(1, -1, 2)), v(2, -3, 8));
}

#[test]
fn normals_are_normalised_again() {
    let t = Matrix::<4, 4>::scale(v(2, 3, 4));
    let n = Normal::new(s(0), s(1), s(0));
    assert_eq!(t.mul_normal(n), Normal::new(s(0), s(1), s(0)));
    let turned = Matrix::<4, 4>::rotation_z(quarter_turn()).mul_normal(Normal::new(s(1), s(0), s(0)));
    assert_eq!(turned, Normal::new(s(0), s(1), s(0)));
}

#[test]
fn columns_of_points_and_vectors() {
    assert_eq!(
        from_point(p(1, 2, 3)),
        Matrix::<4, 1>::with_data([[s(1)], [s(2)], [s(3)], [s(1)]])
    );
    assert_eq!(
        from_vector(v(1, 2, 3)),
        Matrix::<4, 1>::with_data([[s(1)], [s(2)], [s(3)], [s(0)]])
    );
}

#[test]
fn points_from_small_matrices() {
    assert_eq!(Point::from(Matrix::<3, 1>::with_data([[s(1)], [s(2)], [s(3)]])), p(1, 2, 3));
    assert_eq!(Point::from(Matrix::<1, 3>::with_data([[s(1), s(2), s(3)]])), p(1, 2, 3));
}

#[test]
fn transformations_give_their_matrices() {
    assert_eq!(
        Transformation::Translation(v(1, 2, 3)).transformation_to_matrix(),
        Matrix::<4, 4>::translation(v(1, 2, 3))
    );
    assert_eq!(
        Transformation::Scale(v(1, 2, 3)).transformation_to_matrix(),
        Matrix::<4, 4>::scale(v(1, 2, 3))
    );
    let a = Angle::new(s(0), s(-1));
    assert_eq!(
        Transformation::Rotation(Axis::X, a).transformation_to_matrix(),
        Matrix::<4, 4>::rotation_x(a)
    );
    assert_eq!(
        Transformation::Rotation(Axis::Y, a).transformation_to_matrix(),
        Matrix::<4, 4>::rotation_y(a)
    );
    assert_eq!(
        Transformation::Rotation(Axis::Z, a).transformation_to_matrix(),
        Matrix::<4, 4>::rotation_z(a)
    );
}
