use raytracer::fuzzy_comparison::FuzzyPartialEq;
use raytracer::matrix::Matrix4f;
use raytracer::point::Point;
use raytracer::rotation::Rotation;
use raytracer::scalar::Scalar;
use raytracer::vector::Vector;

fn sc(x: f64) -> Scalar {
    Scalar::from_units((x * 1_000_000.0).round() as i64)
}

fn rot_deg(d: f64) -> Rotation {
    let radians = d.to_radians();
    Rotation::new(sc(radians.sin()), sc(radians.cos()))
}

fn p(x: f64, y: f64, z: f64) -> Point {
    Point::new(sc(x), sc(y), sc(z))
}

fn v(x: f64, y: f64, z: f64) -> Vector {
    Vector::new(sc(x), sc(y), sc(z))
}

#[test]
fn ensure_transforms_are_invertable() {
    assert!(Matrix4f::translate(v(1.0, 2.0, 3.0)).is_invertible());
    assert!(Matrix4f::scale(p(2.0, 3.0, 4.0)).is_invertible());
    assert!(!Matrix4f::scale(p(0.0, 0.0, 0.0)).is_invertible());
}

#[test]
fn create_and_apply_raw_translate_matrix_to_point() {
    let result = Matrix4f::translate_raw(sc(1.0), sc(2.0), sc(3.0));
    let test_point = p(4.0, 5.0, 6.0);
    let transformed = result.mul_point(test_point);
    assert!(transformed.fuzzy_eq(p(5.0, 7.0, 9.0)));
}

#[test]
fn create_and_try_apply_raw_translate_matrix_to_vector() {
    let result = Matrix4f::translate_raw(sc(1.0), sc(2.0), sc(3.0));
    let test_vector = v(4.0, 5.0, 6.0);
    let transformed = result.mul_vector(test_vector);
    assert!(transformed.fuzzy_eq(v(4.0, 5.0, 6.0)));
}

#[test]
fn create_and_apply_translate_to_point() {
    let result = Matrix4f::translate(v(1.0, 2.0, 3.0));
    let test_point = p(4.0, 5.0, 6.0);
    let transformed = result.mul_point(test_point);
    assert!(transformed.fuzzy_eq(p(5.0, 7.0, 9.0)));
}

#[test]
fn create_and_apply_inverse_translate_to_point() {
    let result = Matrix4f::translate(v(1.0, 2.0, 3.0)).inverse().unwrap();
    let test_point = p(4.0, 5.0, 6.0);
    let transformed = result.fix_transform().mul_point(test_point);
    assert!(transformed.fuzzy_eq(p(3.0, 3.0, 3.0)));
}

#[test]
fn create_and_apply_general_rotate_x_to_vector() {
    let result = Matrix4f::rotate_around(v(1.0, 0.0, 0.0), rot_deg(90.0));
    let transformed = result.mul_vector(v(0.0, 1.0, 0.0));
    assert!(transformed.fuzzy_eq(v(0.0, 0.0, 1.0)));
}

#[test]
fn create_and_apply_rotate_x_to_vector() {
    let result = Matrix4f::rotate_around_x(rot_deg(90.0));
    let transformed = result.mul_vector(v(0.0, 1.0, 0.0));
    assert!(transformed.fuzzy_eq(v(0.0, 0.0, 1.0)));
}

#[test]
fn create_and_apply_general_rotate_y_to_vector() {
    let result = Matrix4f::rotate_around(v(0.0, 1.0, 0.0), rot_deg(90.0));
    let transformed = result.mul_vector(v(1.0, 0.0, 0.0));
    assert!(transformed.fuzzy_eq(v(0.0, 0.0, -1.0)));
}

#[test]
fn create_and_apply_rotate_y_to_vector() {
    let result = Matrix4f::rotate_around_y(rot_deg(90.0));
    let transformed = result.mul_vector(v(1.0, 0.0, 0.0));
    assert!(transformed.fuzzy_eq(v(0.0, 0.0, -1.0)));
}

#[test]
fn create_and_apply_general_rotate_z_to_vector() {
    let result = Matrix4f::rotate_around(v(0.0, 0.0, 1.0), rot_deg(90.0));
    let transformed = result.mul_vector(v(0.0, 1.0, 0.0));
    assert!(transformed.fuzzy_eq(v(-1.0, 0.0, 0.0)));
}

#[test]
fn create_and_apply_rotate_z_to_vector() {
    let result = Matrix4f::rotate_around_z(rot_deg(90.0));
    let transformed = result.mul_vector(v(0.0, 1.0, 0.0));
    assert!(transformed.fuzzy_eq(v(-1.0, 0.0, 0.0)));
}

#[test]
fn a_shearing_transformation_moves_x_in_proportion_to_y() {
    let transform = Matrix4f::shear_raw(sc(1.0), sc(0.0), sc(0.0), sc(0.0), sc(0.0), sc(0.0));
    assert!(transform.mul_point(p(2.0, 3.0, 4.0)).fuzzy_eq(p(5.0, 3.0, 4.0)));
}

#[test]
fn a_shearing_transformation_moves_x_in_proportion_to_z() {
    let transform = Matrix4f::shear_raw(sc(0.0), sc(1.0), sc(0.0), sc(0.0), sc(0.0), sc(0.0));
    assert!(transform.mul_point(p(2.0, 3.0, 4.0)).fuzzy_eq(p(6.0, 3.0, 4.0)));
}

#[test]
fn a_shearing_transformation_moves_y_in_proportion_to_x() {
    let transform = Matrix4f::shear_raw(sc(0.0), sc(0.0), sc(1.0), sc(0.0), sc(0.0), sc(0.0));
    assert!(transform.mul_point(p(2.0, 3.0, 4.0)).fuzzy_eq(p(2.0, 5.0, 4.0)));
}

#[test]
fn a_shearing_transformation_moves_y_in_proportion_to_z() {
    let transform = Matrix4f::shear_raw(sc(0.0), sc(0.0), sc(0.0), sc(1.0), sc(0.0), sc(0.0));
    assert!(transform.mul_point(p(2.0, 3.0, 4.0)).fuzzy_eq(p(2.0, 7.0, 4.0)));
}

#[test]
fn a_shearing_transformation_moves_z_in_proportion_to_x() {
    let transform = Matrix4f::shear_raw(sc(0.0), sc(0.0), sc(0.0), sc(0.0), sc(1.0), sc(0.0));
    assert!(transform.mul_point(p(2.0, 3.0, 4.0)).fuzzy_eq(p(2.0, 3.0, 6.0)));
}

#[test]
fn a_shearing_transformation_moves_z_in_proportion_to_y() {
    let transform = Matrix4f::shear_raw(sc(0.0), sc(0.0), sc(0.0), sc(0.0), sc(0.0), sc(1.0));
    assert!(transform.mul_point(p(2.0, 3.0, 4.0)).fuzzy_eq(p(2.0, 3.0, 7.0)));
}

#[test]
fn individual_transformation_are_applied_in_sequence() {
    let start = p(1.0, 0.0, 1.0);
    let a = Matrix4f::rotate_around_x(rot_deg(90.0));
    let b = Matrix4f::scale_raw(sc(5.0), sc(5.0), sc(5.0));
    let c = Matrix4f::translate_raw(sc(10.0), sc(5.0), sc(7.0));

    let p2 = a.mul_point(start);
    assert!(p2.fuzzy_eq(p(1.0, -1.0, 0.0)));
    let p3 = b.mul_point(p2);
    assert!(p3.fuzzy_eq(p(5.0, -5.0, 0.0)));
    let p4 = c.mul_point(p3);
    assert!(p4.fuzzy_eq(p(15.0, 0.0, 7.0)));
}

#[test]
fn chained_transformations_must_be_applied_in_reverse_order() {
    let start = p(1.0, 0.0, 1.0);
    let a = Matrix4f::rotate_around_x(rot_deg(90.0));
    let b = Matrix4f::scale_raw(sc(5.0), sc(5.0), sc(5.0));
    let c = Matrix4f::translate_raw(sc(10.0), sc(5.0), sc(7.0));

    let transform = c.mul(b).mul(a);
    assert!(transform.mul_point(start).fuzzy_eq(p(15.0, 0.0, 7.0)));
}
