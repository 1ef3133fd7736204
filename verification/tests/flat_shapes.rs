use raytracer::geometry::disk::Disk;
use raytracer::geometry::normal::Normal;
use raytracer::geometry::plane::Plane;
use raytracer::geometry::point::Point;
use raytracer::geometry::ray::Ray;
use raytracer::geometry::triangle::Triangle;
use raytracer::geometry::vector::Vector;
use raytracer::geometry::{Angle, Axis, Intersection, Transformation};
use raytracer::scalar::Scalar;

fn s(n: i64) -> Scalar {
    Scalar::from_int(n)
}

fn v(x: i64, y: i64, z: i64) -> Vector {
    Vector::new(s(x), s(y), s(z))
}

fn p(x: i64, y: i64, z: i64) -> Point {
    Point::new(s(x), s(y), s(z))
}

fn up() -> Normal {
    Normal::new(s(0), s(0), s(1))
}

fn hit(n: i64) -> Intersection {
    Intersection::Intersect(s(n))
}

fn miss() -> Intersection {
    Intersection::DoesNotIntersect
}

fn floor() -> Plane {
    Plane::new(up(), p(0, 0, 0))
}

fn sample_triangle() -> Triangle {
    Triangle::new(p(-10, 0, 0), p(10, 0, 0), p(0, 20, 0))
}

#[test]
fn plane_is_hit_from_above() {
    assert_eq!(floor().intersect(&Ray::new(p(0, 0, 5), v(0, 0, -1))), hit(5));
    assert_eq!(floor().intersect(&Ray::new(p(7, -3, 5), v(0, 0, -1))), hit(5));
}

#[test]
fn plane_is_hit_from_below() {
    assert_eq!(floor().intersect(&Ray::new(p(0, 0, -5), v(0, 0, 1))), hit(5));
}

#[test]
fn plane_is_hit_obliquely() {
    let half = Scalar::Finite(1 << 31);
    let direction = Vector::new(s(0), half, half.neg());
    assert_eq!(floor().intersect(&Ray::new(p(0, 0, 5), direction)), hit(10));
}

#[test]
fn plane_away_from_the_origin() {
    let plane = Plane::new(Normal::new(s(1), s(0), s(0)), p(4, 9, 9));
    assert_eq!(plane.intersect(&Ray::new(p(1, 0, 0), v(1, 0, 0))), hit(3));
}

#[test]
fn ray_parallel_to_the_plane_misses_from_any_origin() {
    for origin in [p(0, 0, 5), p(0, 0, 0), p(3, 4, -5), p(-100, 7, 1)] {
        assert_eq!(floor().intersect(&Ray::new(origin, v(1, 0, 0))), miss());
        assert_eq!(floor().intersect(&Ray::new(origin, v(3, -4, 0))), miss());
    }
}

#[test]
fn ray_almost_parallel_to_the_plane_misses() {
    let direction = Vector::new(s(1), s(0), Scalar::Finite(-1));
    assert_eq!(floor().intersect(&Ray::new(p(0, 0, 5), direction)), miss());
    let steeper = Vector::new(s(1), s(0), Scalar::Finite(-(1 << 12)));
    assert_eq!(
        floor().intersect(&Ray::new(p(0, 0, 5), steeper)),
        Intersection::Intersect(s(5 << 20))
    );
}

#[test]
fn plane_behind_the_ray_is_missed() {
    assert_eq!(floor().intersect(&Ray::new(p(0, 0, 5), v(0, 0, 1))), miss());
}

#[test]
fn ray_that_starts_on_the_plane_hits_at_zero() {
    assert_eq!(floor().intersect(&Ray::new(p(3, 4, 0), v(0, 0, -1))), hit(0));
}

#[test]
fn plane_crossing_out_of_range_is_missed() {
    let direction = Vector::new(s(1), s(0), Scalar::Finite(-2));
    let origin = Point::new(s(0), s(0), s(1 << 30));
    assert_eq!(floor().intersect(&Ray::new(origin, direction)), miss());
}

#[test]
fn plane_normal_is_the_same_everywhere() {
    assert_eq!(floor().normal_at_point(&p(0, 0, 0)), up());
    assert_eq!(floor().normal_at_point(&p(5, -6, 7)), up());
}

#[test]
fn disk_is_hit_inside_its_radius() {
    let disk = Disk::new(p(0, 0, 0), s(2), up());
    assert_eq!(disk.intersect(&Ray::new(p(1, 0, 5), v(0, 0, -1))), hit(5));
    assert_eq!(disk.intersect(&Ray::new(p(0, 0, 5), v(0, 0, -1))), hit(5));
}

#[test]
fn disk_is_missed_outside_its_radius() {
    let disk = Disk::new(p(0, 0, 0), s(2), up());
    assert_eq!(disk.intersect(&Ray::new(p(3, 0, 5), v(0, 0, -1))), miss());
    assert_eq!(disk.intersect(&Ray::new(p(2, 2, 5), v(0, 0, -1))), miss());
}

#[test]
fn disk_is_hit_on_its_rim() {
    let disk = Disk::new(p(0, 0, 0), s(2), up());
    assert_eq!(disk.intersect(&Ray::new(p(2, 0, 5), v(0, 0, -1))), hit(5));
    assert_eq!(disk.intersect(&Ray::new(p(0, -2, 5), v(0, 0, -1))), hit(5));
    let just_outside = Point::new(s(2).add(Scalar::Finite(1)), s(0), s(5));
    assert_eq!(disk.intersect(&Ray::new(just_outside, v(0, 0, -1))), miss());
}

#[test]
fn disk_is_missed_by_parallel_and_receding_rays() {
    let disk = Disk::new(p(0, 0, 0), s(2), up());
    assert_eq!(disk.intersect(&Ray::new(p(0, 0, 5), v(1, 0, 0))), miss());
    assert_eq!(disk.intersect(&Ray::new(p(0, 0, 5), v(0, 0, 1))), miss());
}

#[test]
fn disk_with_undefined_radius_is_missed() {
    let disk = Disk::new(p(0, 0, 0), Scalar::Nan, up());
    assert_eq!(disk.intersect(&Ray::new(p(0, 0, 5), v(0, 0, -1))), miss());
}

#[test]
fn disk_normal_is_its_own() {
    let disk = Disk::new(p(0, 0, 0), s(2), up());
    assert_eq!(disk.normal_at_point(&p(1, 1, 0)), up());
}

#[test]
fn triangle_is_hit_straight_on() {
    let r = Ray::new(p(0, 5, 50), v(0, 0, -1));
    assert_eq!(sample_triangle().intersect(&r), hit(50));
}

#[test]
fn triangle_is_missed_far_to_the_side() {
    let r = Ray::new(p(100, 100, 50), v(0, 0, -1));
    assert_eq!(sample_triangle().intersect(&r), miss());
}

#[test]
fn triangle_is_hit_from_behind() {
    let r = Ray::new(p(0, 5, -50), v(0, 0, 1));
    assert_eq!(sample_triangle().intersect(&r), hit(50));
}

#[test]
fn triangle_behind_the_ray_is_missed() {
    let r = Ray::new(p(0, 5, -50), v(0, 0, -1));
    assert_eq!(sample_triangle().intersect(&r), miss());
}

#[test]
fn triangle_is_missed_by_a_ray_in_its_plane() {
    assert_eq!(sample_triangle().intersect(&Ray::new(p(-50, 5, 0), v(1, 0, 0))), miss());
    assert_eq!(sample_triangle().intersect(&Ray::new(p(-50, 5, 3), v(1, 0, 0))), miss());
}

#[test]
fn triangle_is_hit_on_corners_and_edges() {
    let t = sample_triangle();
    assert_eq!(t.intersect(&Ray::new(p(-10, 0, 50), v(0, 0, -1))), hit(50));
    assert_eq!(t.intersect(&Ray::new(p(10, 0, 50), v(0, 0, -1))), hit(50));
    assert_eq!(t.intersect(&Ray::new(p(0, 20, 50), v(0, 0, -1))), hit(50));
    assert_eq!(t.intersect(&Ray::new(p(0, 0, 50), v(0, 0, -1))), hit(50));
    assert_eq!(t.intersect(&Ray::new(p(5, 10, 50), v(0, 0, -1))), hit(50));
}

#[test]
fn triangle_is_missed_just_outside_each_edge() {
    let t = sample_triangle();
    assert_eq!(t.intersect(&Ray::new(p(0, -1, 50), v(0, 0, -1))), miss());
    assert_eq!(t.intersect(&Ray::new(p(6, 10, 50), v(0, 0, -1))), miss());
    assert_eq!(t.intersect(&Ray::new(p(-6, 10, 50), v(0, 0, -1))), miss());
}

#[test]
fn triangle_is_missed_by_a_ray_that_starts_on_it() {
    let t = sample_triangle();
    assert_eq!(t.intersect(&Ray::new(p(0, 5, 0), v(0, 0, -1))), miss());
    let barely = Point::new(s(0), s(5), Scalar::Finite(2));
    assert_eq!(
        t.intersect(&Ray::new(barely, v(0, 0, -1))),
        Intersection::Intersect(Scalar::Finite(2))
    );
    let too_close = Point::new(s(0), s(5), Scalar::Finite(1));
    assert_eq!(t.intersect(&Ray::new(too_close, v(0, 0, -1))), miss());
}

#[test]
fn triangle_normal_is_flat() {
    let t = sample_triangle();
    assert_eq!(t.normal_at_point(&p(0, 5, 0)), up());
    assert_eq!(t.normal_at_point(&p(99, 99, 99)), up());
    let flipped = Triangle::new(p(-10, 0, 0), p(0, 20, 0), p(10, 0, 0));
    assert_eq!(flipped.normal_at_point(&p(0, 5, 0)), Normal::new(s(0), s(0), s(-1)));
}

#[test]
fn degenerate_triangle_is_never_hit() {
    let line = Triangle::new(p(0, 0, 0), p(1, 0, 0), p(2, 0, 0));
    assert_eq!(line.intersect(&Ray::new(p(1, 0, 5), v(0, 0, -1))), miss());
    assert_eq!(line.normal_at_point(&p(1, 0, 0)), Normal::zero());
}

#[test]
fn triangle_corners_follow_a_transformation() {
    let mut t = sample_triangle();
    t.transform(Transformation::Translation(v(1, 2, 3)));
    assert_eq!(t, Triangle::new(p(-9, 2, 3), p(11, 2, 3), p(1, 22, 3)));
    t.transform(Transformation::Scale(v(2, 1, 1)));
    assert_eq!(t, Triangle::new(p(-18, 2, 3), p(22, 2, 3), p(2, 22, 3)));
    let mut turned = sample_triangle();
    turned.transform(Transformation::Rotation(Axis::Z, Angle::new(s(0), s(1))));
    assert_eq!(turned, Triangle::new(p(0, -10, 0), p(0, 10, 0), p(-20, 0, 0)));
}
