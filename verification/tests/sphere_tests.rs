use raytracer::body::Sphere;
use raytracer::fuzzy_comparison::FuzzyPartialEq;
use raytracer::intersection::IntersectionList;
use raytracer::matrix::Matrix4f;
use raytracer::point::Point;
use raytracer::ray::Ray;
use raytracer::rotation::Rotation;
use raytracer::scalar::Scalar;
use raytracer::vector::Vector;

fn sc(x: f64) -> Scalar {
    Scalar::from_units((x * 1_000_000.0).round() as i64)
}

fn near(a: Scalar, e: f64) -> bool {
    (a.units() - (e * 1_000_000.0).round() as i64).abs() < 10
}

fn near_tol(a: Scalar, e: f64, tol: i64) -> bool {
    (a.units() - (e * 1_000_000.0).round() as i64).abs() < tol
}

fn p(x: f64, y: f64, z: f64) -> Point {
    Point::new(sc(x), sc(y), sc(z))
}

fn v(x: f64, y: f64, z: f64) -> Vector {
    Vector::new(sc(x), sc(y), sc(z))
}

fn rot_deg(d: f64) -> Rotation {
    let radians = d.to_radians();
    Rotation::new(sc(radians.sin()), sc(radians.cos()))
}

#[test]
fn test_sphere_intersect() {
    let s = Sphere::new(Matrix4f::identity());
    let r = Ray::new(p(0.0, 0.0, -5.0), v(0.0, 0.0, 1.0));
    let xs = s.intersect(&r);
    assert_eq!(xs.len(), 2);
    assert!(near(xs[0].t, 4.0));
    assert!(near(xs[1].t, 6.0));
}

#[test]
fn test_sphere_hits_negative() {
    let s = Sphere::new(Matrix4f::identity());
    let r = Ray::new(p(0.0, 0.0, 5.0), v(0.0, 0.0, 1.0));
    let xs = s.intersect(&r);
    assert_eq!(xs.len(), 2);
    assert!(near(xs[0].t, -6.0));
    assert!(near(xs[1].t, -4.0));
}

#[test]
fn test_sphere_misses() {
    let s = Sphere::new(Matrix4f::identity());
    let r = Ray::new(p(0.0, 2.0, -5.0), v(0.0, 0.0, 1.0));
    let xs = s.intersect(&r);
    assert_eq!(xs.len(), 0);
}

#[test]
fn test_sphere_behind() {
    let s = Sphere::new(Matrix4f::identity());
    let r = Ray::new(p(0.0, 0.0, 5.0), v(0.0, 0.0, -1.0));
    let xs = s.intersect(&r);
    assert_eq!(xs.len(), 2);
    assert!(near(xs[0].t, 4.0));
    assert!(near(xs[1].t, 6.0));
}

#[test]
fn test_sphere_inside() {
    let s = Sphere::new(Matrix4f::identity());
    let r = Ray::new(p(0.0, 0.0, 0.0), v(0.0, 0.0, 1.0));
    let xs = s.intersect(&r);
    assert_eq!(xs.len(), 2);
    assert!(near(xs[0].t, -1.0));
    assert!(near(xs[1].t, 1.0));
}

#[test]
fn test_sphere_tangent() {
    let s = Sphere::new(Matrix4f::identity());
    let r = Ray::new(p(0.0, 1.0, -1.0), v(0.0, 0.0, 1.0));
    let xs = s.intersect(&r);
    assert_eq!(xs.len(), 1);
    assert!(near(xs[0].t, 1.0));
}

#[test]
fn test_translated_sphere() {
    let s = Sphere::new(Matrix4f::translate_raw(sc(2.0), sc(0.0), sc(0.0)));
    let r = Ray::new(p(2.0, 0.0, -3.0), v(0.0, 0.0, 1.0));
    let xs = s.intersect(&r);
    assert_eq!(xs.len(), 2);
    assert!(near(xs[0].t, 2.0));
    assert!(near(xs[1].t, 4.0));
}

#[test]
fn test_hit_method() {
    let s = Sphere::new(Matrix4f::identity());
    let r = Ray::new(p(0.0, 0.0, -5.0), v(0.0, 0.0, 1.0));
    let xs = s.intersect(&r);
    let x = xs.hit().expect("This should contain 2 intersections, so a hit should always exist.");
    assert!(near(x.t, 4.0));
}

#[test]
fn test_diagonal_should_miss() {
    let s = Sphere::new(Matrix4f::identity());
    let r = Ray::new(p(0.0, 0.0, -5.0), v(5.0, -5.0, 10.0).normalize());
    let xs = s.intersect(&r);
    assert_eq!(xs.len(), 0);
}

#[test]
fn normal_on_sphere_at_point_on_x_axis() {
    let s = Sphere::new(Matrix4f::identity());
    let n = s.normal(p(1.0, 0.0, 0.0));
    assert!(n.fuzzy_eq(v(1.0, 0.0, 0.0)));
}

#[test]
fn normal_on_scaled_and_rotated_sphere() {
    let s = Sphere::new(
        Matrix4f::scale_raw(sc(1.0), sc(0.5), sc(1.0)).mul(Matrix4f::rotate_around_z(rot_deg(36.0))),
    );
    let sqrt2_over_2 = (2.0f64).sqrt() / 2.0;
    let n = s.normal(p(0.0, sqrt2_over_2, -sqrt2_over_2));
    // Four chained truncating stages (inverse application, local normal,
    // transpose-inverse application, renormalization) each contribute a few
    // units, and the reference values carry five decimals, so the honest
    // bound here is a small multiple of the one-hundred-thousandth
    // tolerance, not the tolerance itself.
    assert!(near_tol(n.0.0, 0.0, 50));
    assert!(near_tol(n.0.1, 0.97014, 50));
    assert!(near_tol(n.0.2, -0.24254, 50));
}

#[test]
fn normal_should_be_normalized() {
    let s = Sphere::new(
        Matrix4f::scale_raw(sc(1.0), sc(0.5), sc(1.0)).mul(Matrix4f::rotate_around_z(rot_deg(36.0))),
    );
    let sqrt2_over_2 = (2.0f64).sqrt() / 2.0;
    let n = s.normal(p(0.0, sqrt2_over_2, -sqrt2_over_2));
    // The world normal is unit length within five units (the proved bound);
    // squaring doubles that deviation, so the squared length is checked at
    // twice the tolerance.
    assert!(near_tol(n.magnitude(), 1.0, 10));
    assert!(near_tol(n.sqr_magnitude(), 1.0, 20));
    let renorm = n.normalize();
    assert!(near_tol(n.0.0.sub(renorm.0.0), 0.0, 10));
    assert!(near_tol(n.0.1.sub(renorm.0.1), 0.0, 10));
    assert!(near_tol(n.0.2.sub(renorm.0.2), 0.0, 10));
}

#[test]
fn ray_new() {
    let origin = p(1.0, 2.0, 3.0);
    let direction = v(4.0, 5.0, 6.0);
    let r = Ray::new(origin, direction);
    assert!(r.origin.fuzzy_eq(origin));
    assert!(r.direction.fuzzy_eq(direction));
}

#[test]
fn ray_position() {
    let r = Ray::new(p(2.0, 3.0, 4.0), v(1.0, 0.0, 0.0));
    assert!(r.at(sc(0.0)).fuzzy_eq(p(2.0, 3.0, 4.0)));
    assert!(r.at(sc(1.0)).fuzzy_eq(p(3.0, 3.0, 4.0)));
    assert!(r.at(sc(-1.0)).fuzzy_eq(p(1.0, 3.0, 4.0)));
    assert!(r.at(sc(2.5)).fuzzy_eq(p(4.5, 3.0, 4.0)));
}

#[test]
fn translating_a_ray() {
    let r = Ray::new(p(1.0, 2.0, 3.0), v(0.0, 1.0, 0.0));
    let m = Matrix4f::translate_raw(sc(3.0), sc(4.0), sc(5.0));
    let r2 = m.mul_ray(&r);
    assert!(r2.origin.fuzzy_eq(p(4.0, 6.0, 8.0)));
    assert!(r2.direction.fuzzy_eq(v(0.0, 1.0, 0.0)));
}

#[test]
fn scaling_a_ray() {
    let r = Ray::new(p(1.0, 2.0, 3.0), v(0.0, 1.0, 0.0));
    let m = Matrix4f::scale_raw(sc(2.0), sc(3.0), sc(4.0));
    let r2 = m.mul_ray(&r);
    assert!(r2.origin.fuzzy_eq(p(2.0, 6.0, 12.0)));
    assert!(r2.direction.fuzzy_eq(v(0.0, 3.0, 0.0)));
}
