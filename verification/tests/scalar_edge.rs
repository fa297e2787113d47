use raytracer::body::{Body, RawSphere};
use raytracer::color::ColorRGBA;
use raytracer::fuzzy_comparison::FuzzyPartialEq;
use raytracer::intersection::Intersection;
use raytracer::light::Lights;
use raytracer::material::Phong;
use raytracer::point::Point;
use raytracer::ray::Ray;
use raytracer::scalar::{Scalar, EPSILON_UNITS, MAX_UNITS, SCALE};
use raytracer::vector::Vector;
use raytracer::world_info::{Limits, WorldInfo};

fn sc(x: f64) -> Scalar {
    Scalar::from_units((x * 1_000_000.0).round() as i64)
}

#[test]
fn scalars_saturate_instead_of_wrapping() {
    let huge = Scalar::from_units(i64::MAX);
    assert_eq!(huge.units(), MAX_UNITS);
    let negative_huge = Scalar::from_units(i64::MIN);
    assert_eq!(negative_huge.units(), -MAX_UNITS);
    let doubled = huge.add(huge);
    assert_eq!(doubled.units(), MAX_UNITS);
}

#[test]
fn division_by_zero_is_zero() {
    assert_eq!(sc(3.5).div(Scalar::zero()).units(), 0);
    assert_eq!(Scalar::zero().div(Scalar::zero()).units(), 0);
}

#[test]
fn square_root_of_a_negative_is_zero() {
    assert_eq!(sc(-4.0).sqrt().units(), 0);
    assert_eq!(sc(4.0).sqrt().units(), 2 * SCALE);
}

#[test]
fn fuzzy_equality_tracks_the_tolerance() {
    let a = Scalar::from_units(1_000_000);
    let close = Scalar::from_units(1_000_000 + EPSILON_UNITS - 1);
    let apart = Scalar::from_units(1_000_000 + EPSILON_UNITS);
    assert!(a.fuzzy_eq(close));
    assert!(!a.fuzzy_eq(apart));
}

#[test]
fn powers_multiply_up_from_one() {
    assert_eq!(sc(2.0).powi(0).units(), SCALE);
    assert_eq!(sc(2.0).powi(10).units(), 1024 * SCALE);
    assert_eq!(sc(0.5).powi(2).units(), SCALE / 4);
}

#[test]
fn zero_lights_degenerate_to_ambient_shading() {
    let ray = Ray::new(
        Point::new(sc(0.0), sc(0.0), sc(-5.0)),
        Vector::new(sc(0.0), sc(0.0), sc(1.0)),
    );
    let i = Intersection::new(sc(4.0), Body::Sphere(RawSphere::default()), ray);
    let world = WorldInfo {
        root_object: Body::Sphere(RawSphere::default()),
        lights: Lights::new(vec![]),
        limits: Limits { max_light_bounces: 5 },
    };
    let m = Phong::default();
    let shaded = m.render(&i, &world);
    assert!(shaded.fuzzy_eq(ColorRGBA::new(sc(0.1), sc(0.1), sc(0.1), sc(1.0))));
}
