use raytracer::fuzzy_comparison::FuzzyPartialEq;
use raytracer::point::Point;
use raytracer::scalar::Scalar;
use raytracer::three_part::ThreePart;
use raytracer::vector::Vector;

fn sc(x: f64) -> Scalar {
    Scalar::from_units((x * 1_000_000.0).round() as i64)
}

fn tp(a: f64, b: f64, c: f64, w: f64) -> ThreePart {
    ThreePart(sc(a), sc(b), sc(c), sc(w))
}

fn near(a: Scalar, e: f64) -> bool {
    (a.units() - (e * 1_000_000.0).round() as i64).abs() < 10
}

#[test]
fn point_can_be_created_direct() {
    let point = Point(tp(4.3, -4.2, 3.1, 1.0));
    let Point(three_part) = point;
    assert!(three_part.fuzzy_eq(tp(4.3, -4.2, 3.1, 1.0)));
}

#[test]
fn point_can_be_created_default() {
    let point = Point::origin();
    let Point(three_part) = point;
    assert!(three_part.fuzzy_eq(tp(0.0, 0.0, 0.0, 1.0)));
}

#[test]
fn point_can_be_created_values() {
    let point = Point::new(sc(4.3), sc(-4.2), sc(3.1));
    let Point(three_part) = point;
    assert!(three_part.fuzzy_eq(tp(4.3, -4.2, 3.1, 1.0)));
}

#[test]
fn point_can_add_point_and_vector() {
    let point = Point::new(sc(3.0), sc(-2.0), sc(5.0));
    let vector = Vector::new(sc(-2.0), sc(3.0), sc(1.0));
    let Point(out) = point.add(vector);
    assert!(out.fuzzy_eq(tp(1.0, 1.0, 6.0, 1.0)));
}

#[test]
fn point_can_add_point_and_point() {
    let point1 = Point::new(sc(5.0), sc(-2.0), sc(8.0));
    let point2 = Point::new(sc(-9.0), sc(2.0), sc(5.0));
    let Point(out) = point2.add(point1.sub(Point::origin()));
    assert!(out.fuzzy_eq(tp(-4.0, 0.0, 13.0, 1.0)));
}

#[test]
fn point_can_sub_point_and_vector() {
    let point = Point::new(sc(4.0), sc(-7.0), sc(3.0));
    let vector = Vector::new(sc(-8.0), sc(6.0), sc(0.0));
    let Point(out) = point.sub_vector(vector);
    assert!(out.fuzzy_eq(tp(12.0, -13.0, 3.0, 1.0)));
}

#[test]
fn point_can_sub_point_and_point() {
    let point1 = Point::new(sc(1.0), sc(2.0), sc(3.0));
    let point2 = Point::new(sc(4.0), sc(5.0), sc(6.0));
    let Vector(out) = point1.sub(point2);
    assert!(out.fuzzy_eq(tp(-3.0, -3.0, -3.0, 0.0)));
}

#[test]
fn vector_can_be_created_direct() {
    let vector = Vector(tp(4.3, -4.2, 3.1, 0.0));
    let Vector(three_part) = vector;
    assert!(three_part.fuzzy_eq(tp(4.3, -4.2, 3.1, 0.0)));
}

#[test]
fn vector_can_be_created_default() {
    let vector = Vector::origin();
    let Vector(three_part) = vector;
    assert!(three_part.fuzzy_eq(tp(0.0, 0.0, 0.0, 0.0)));
}

#[test]
fn vector_can_be_created_values() {
    let vector = Vector::new(sc(4.3), sc(-4.2), sc(3.1));
    let Vector(three_part) = vector;
    assert!(three_part.fuzzy_eq(tp(4.3, -4.2, 3.1, 0.0)));
}

#[test]
fn vector_can_be_added() {
    let vector = Vector::new(sc(4.3), sc(-4.2), sc(3.1));
    let vector2 = Vector::new(sc(1.2), sc(3.4), sc(-5.6));
    let Vector(three_part) = vector.add(vector2);
    assert!(three_part.fuzzy_eq(tp(5.5, -0.8, -2.5, 0.0)));
}

#[test]
fn vector_can_be_subtracted() {
    let vector = Vector::new(sc(4.3), sc(-4.2), sc(3.1));
    let vector2 = Vector::new(sc(1.2), sc(3.4), sc(-5.6));
    let Vector(three_part) = vector.sub(vector2);
    assert!(three_part.fuzzy_eq(tp(3.1, -7.6, 8.7, 0.0)));
}

#[test]
fn vector_can_be_multiplied_by_a_scalar() {
    let vector = Vector::new(sc(4.3), sc(-4.2), sc(3.1));
    let Vector(three_part) = vector.scale(sc(2.0));
    assert!(three_part.fuzzy_eq(tp(8.6, -8.4, 6.2, 0.0)));
}

#[test]
fn vector_can_be_divided_by_a_scalar() {
    let vector = Vector::new(sc(4.3), sc(-4.2), sc(3.1));
    let Vector(three_part) = vector.div_by(sc(2.0));
    assert!(three_part.fuzzy_eq(tp(2.15, -2.1, 1.55, 0.0)));
}

#[test]
fn vector_can_be_negated() {
    let vector = Vector::new(sc(4.3), sc(-4.2), sc(3.1));
    let Vector(three_part) = vector.neg();
    assert!(three_part.fuzzy_eq(tp(-4.3, 4.2, -3.1, 0.0)));
}

#[test]
fn vector_get_magnitude_of_unit_vector() {
    let vector = Vector::new(sc(1.0), sc(0.0), sc(0.0));
    assert!(near(vector.magnitude(), 1.0));
}

#[test]
fn vector_get_magnitude_of_1_2_3_vector() {
    let vector = Vector::new(sc(1.0), sc(2.0), sc(3.0));
    assert!(near(vector.magnitude(), (14.0f64).sqrt()));
}

#[test]
fn vector_get_magnitude_of_negative_1_2_3_vector() {
    let vector = Vector::new(sc(-1.0), sc(-2.0), sc(-3.0));
    assert!(near(vector.magnitude(), (14.0f64).sqrt()));
}

#[test]
fn vector_normalize_simple_vector() {
    let vector = Vector::new(sc(4.0), sc(0.0), sc(0.0));
    let normalized = vector.normalize();
    assert!(normalized.fuzzy_eq(Vector::new(sc(1.0), sc(0.0), sc(0.0))));
}

#[test]
fn vector_normalize_1_2_3_vector() {
    let vector = Vector::new(sc(1.0), sc(2.0), sc(3.0));
    let normalized = vector.normalize();
    let root14 = (14.0f64).sqrt();
    assert!(normalized.fuzzy_eq(Vector::new(sc(1.0 / root14), sc(2.0 / root14), sc(3.0 / root14))));
}

#[test]
fn vector_dot_product_of_two_vectors() {
    let vector = Vector::new(sc(1.0), sc(2.0), sc(3.0));
    let vector2 = Vector::new(sc(4.0), sc(5.0), sc(6.0));
    assert!(near(vector.dot(vector2), 32.0));
}

#[test]
fn vector_cross_product_of_two_vectors() {
    let vector = Vector::new(sc(1.0), sc(2.0), sc(3.0));
    let vector2 = Vector::new(sc(4.0), sc(5.0), sc(6.0));
    let cross = vector.cross(vector2);
    assert!(cross.fuzzy_eq(Vector::new(sc(-3.0), sc(6.0), sc(-3.0))));
}

#[test]
fn reflect_across() {
    let normal = Vector::new(sc(0.0), sc(1.0), sc(0.0));
    let incoming = Vector::new(sc(1.0), sc(-1.0), sc(0.0));
    let reflected = incoming.reflect_across(normal);
    assert!(reflected.fuzzy_eq(Vector::new(sc(1.0), sc(1.0), sc(0.0))));
}

#[test]
fn reflect_across_slant() {
    let incoming = Vector::new(sc(0.0), sc(-1.0), sc(0.0));
    let normal = Vector::new(sc(1.0), sc(1.0), sc(0.0)).normalize();
    let reflected = incoming.reflect_across(normal);
    assert!(reflected.fuzzy_eq(Vector::new(sc(1.0), sc(0.0), sc(0.0))));
}
