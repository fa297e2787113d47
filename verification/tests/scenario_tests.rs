use std::sync::Arc;

use raytracer::body::{Body, BodyBuilder, RawSphere, Scene, Sphere};
use raytracer::camera::Camera;
use raytracer::color::ColorRGBA;
use raytracer::fuzzy_comparison::FuzzyPartialEq;
use raytracer::intersection::{Intersection, IntersectionList};
use raytracer::light::{Light, Lights, PointLight};
use raytracer::material::{
    phong, Ambient, CheckerBoard, Material, MaterialStack, Multiply, Phong, Specular,
};
use raytracer::matrix::Matrix4f;
use raytracer::point::Point;
use raytracer::ray::Ray;
use raytracer::render::render_pixel;
use raytracer::rotation::Rotation;
use raytracer::scalar::Scalar;
use raytracer::util::NewAsArc;
use raytracer::vector::Vector;
use raytracer::weak_cell::WeakCell;
use raytracer::world_info::{Limits, WorldInfo};

fn sc(x: f64) -> Scalar {
    Scalar::from_units((x * 1_000_000.0).round() as i64)
}

fn p(x: f64, y: f64, z: f64) -> Point {
    Point::new(sc(x), sc(y), sc(z))
}

fn v(x: f64, y: f64, z: f64) -> Vector {
    Vector::new(sc(x), sc(y), sc(z))
}

fn rgba(r: f64, g: f64, b: f64, a: f64) -> ColorRGBA {
    ColorRGBA::new(sc(r), sc(g), sc(b), sc(a))
}

fn rot_deg(d: f64) -> Rotation {
    let radians = d.to_radians();
    Rotation::new(sc(radians.sin()), sc(radians.cos()))
}

fn near_tol(a: Scalar, e: f64, tol: i64) -> bool {
    (a.units() - (e * 1_000_000.0).round() as i64).abs() < tol
}

#[test]
fn center_ray_crosses_a_diameter() {
    let s = Sphere::new(Matrix4f::identity());
    let r = Ray::new(p(0.0, 0.0, -5.0), v(0.0, 0.0, 1.0));
    let xs = s.intersect(&r);
    assert_eq!(xs.len(), 2);
    assert!(xs[0].t.lt(xs[1].t));
    let span = xs[1].t.sub(xs[0].t);
    assert!(span.fuzzy_eq(sc(2.0)));
}

#[test]
fn hit_picks_smallest_nonnegative_among_mixed() {
    let ray = Ray::new(p(0.0, 0.0, 0.0), v(0.0, 0.0, 1.0));
    let object = Body::Sphere(RawSphere::default());
    let ts: [f64; 5] = [3.5, -2.0, 1.5, -7.0, 6.0];
    let mut xs: Vec<Intersection> = Vec::new();
    for t in ts {
        xs.push(Intersection::new(sc(t), object.clone(), ray));
    }
    let hit = xs.hit().expect("positive distances are present");
    assert!(hit.t.fuzzy_eq(sc(1.5)));
}

#[test]
fn hit_ignores_an_all_negative_list() {
    let ray = Ray::new(p(0.0, 0.0, 0.0), v(0.0, 0.0, 1.0));
    let object = Body::Sphere(RawSphere::default());
    let ts: [f64; 3] = [-3.5, -2.0, -7.0];
    let mut xs: Vec<Intersection> = Vec::new();
    for t in ts {
        xs.push(Intersection::new(sc(t), object.clone(), ray));
    }
    assert!(xs.hit().is_none());
}

#[test]
fn hit_keeps_the_first_of_equal_distances() {
    let ray = Ray::new(p(0.0, 0.0, 0.0), v(0.0, 0.0, 1.0));
    let first = Body::Sphere(RawSphere::default());
    let second = Body::Sphere(RawSphere {
        material: Arc::new(Material::Phong(Phong::default().with_shininess(7))),
    });
    let mut xs: Vec<Intersection> = Vec::new();
    xs.push(Intersection::new(sc(2.0), first, ray));
    xs.push(Intersection::new(sc(2.0), second, ray));
    let hit = xs.hit().expect("nonnegative distances are present");
    let held = match &hit.object {
        Body::Sphere(s) => match &*s.material {
            Material::Phong(ph) => ph.shininess,
            _ => 999,
        },
        _ => 999,
    };
    assert_eq!(held, 0);
}

#[test]
fn hit_assume_sorted_takes_first_nonnegative() {
    let ray = Ray::new(p(0.0, 0.0, 0.0), v(0.0, 0.0, 1.0));
    let object = Body::Sphere(RawSphere::default());
    let ts: [f64; 4] = [-3.0, -1.0, 2.5, 4.0];
    let mut xs: Vec<Intersection> = Vec::new();
    for t in ts {
        xs.push(Intersection::new(sc(t), object.clone(), ray));
    }
    let hit = xs.hit_assume_sorted().expect("a nonnegative distance is present");
    assert!(hit.t.fuzzy_eq(sc(2.5)));
}

#[test]
fn transform_round_trip_restores_the_point() {
    let m = Matrix4f::translate_raw(sc(1.0), sc(2.0), sc(3.0)).mul(
        Matrix4f::scale_raw(sc(2.0), sc(3.0), sc(4.0)),
    ).mul(Matrix4f::rotate_around_y(rot_deg(30.0)));
    let inverse = m.inverse().unwrap();
    let start = p(1.5, -2.0, 0.5);
    let moved = m.mul_point(start);
    let back = inverse.fix_transform().mul_point(moved);
    // Each inverse entry carries up to one unit of truncation; applying the
    // inverse multiplies those by coordinates of magnitude up to about ten
    // and sums four products per component, so the honest bound is a small
    // multiple of the one-hundred-thousandth tolerance, not the tolerance
    // itself.
    assert!(near_tol(back.0.0, 1.5, 100));
    assert!(near_tol(back.0.1, -2.0, 100));
    assert!(near_tol(back.0.2, 0.5, 100));
}

#[test]
fn scene_tags_intersections_with_itself() {
    let scene = Scene::new(vec![
        Sphere::new(Matrix4f::identity()),
        Sphere::new(Matrix4f::translate_raw(sc(0.0), sc(5.0), sc(0.0))),
    ]);
    let r = Ray::new(p(0.0, 0.0, -5.0), v(0.0, 0.0, 1.0));
    let xs = scene.intersect(&r);
    assert_eq!(xs.len(), 2);
    for x in &xs {
        assert!(x.top_level_object.is_some());
        match &x.object {
            Body::Transformed(_) => {},
            _ => panic!("a scene hit should name a child body"),
        }
    }
}

#[test]
fn stack_of_one_ambient_renders_its_color() {
    let ray = Ray::new(p(0.0, 0.0, -5.0), v(0.0, 0.0, 1.0));
    let object = Body::Sphere(RawSphere::default());
    let i = Intersection::new(sc(4.0), object, ray);
    let world = WorldInfo {
        root_object: Body::Sphere(RawSphere::default()),
        lights: Lights::new(vec![]),
        limits: Limits { max_light_bounces: 5 },
    };
    let stack = MaterialStack::new(vec![Material::Ambient(Ambient::new(rgba(
        0.2, 0.4, 0.6, 1.0,
    )))]);
    let shaded = stack.render(&i, &world);
    assert!(shaded.fuzzy_eq(rgba(0.2, 0.4, 0.6, 1.0)));
}

#[test]
fn multiply_combinator_multiplies_channels() {
    let ray = Ray::new(p(0.0, 0.0, -5.0), v(0.0, 0.0, 1.0));
    let object = Body::Sphere(RawSphere::default());
    let i = Intersection::new(sc(4.0), object, ray);
    let world = WorldInfo {
        root_object: Body::Sphere(RawSphere::default()),
        lights: Lights::new(vec![]),
        limits: Limits { max_light_bounces: 5 },
    };
    let combined = Multiply::new(vec![
        Material::Ambient(Ambient::new(rgba(0.5, 1.0, 0.25, 1.0))),
        Material::Ambient(Ambient::new(rgba(0.5, 0.5, 1.0, 1.0))),
    ]);
    let shaded = combined.render(&i, &world);
    assert!(shaded.fuzzy_eq(rgba(0.25, 0.5, 0.25, 1.0)));
}

#[test]
fn phong_helper_builds_the_three_layers() {
    let stack = phong(
        rgba(0.1, 0.1, 0.1, 1.0),
        rgba(0.5, 0.5, 0.5, 1.0),
        rgba(0.9, 0.9, 0.9, 1.0),
        30,
    );
    assert_eq!(stack.materials.len(), 3);
    assert!(matches!(stack.materials[0], Material::Ambient(_)));
    assert!(matches!(stack.materials[1], Material::Diffuse(_)));
    assert!(matches!(stack.materials[2], Material::Specular(_)));
}

#[test]
fn specular_material_keeps_its_shininess() {
    let s = Specular::new(rgba(0.9, 0.9, 0.9, 1.0), 60);
    assert_eq!(s.shininess, 60);
}

#[test]
fn end_to_end_hit_is_lit_and_misses_are_background() {
    let material = Arc::new(Material::Phong(Phong::default()));
    let scene = Scene::new(vec![
        Sphere::new_with_body(Matrix4f::identity(), RawSphere { material }),
    ]);
    let lights = Lights::new(vec![
        Light::Point(PointLight::new(p(-10.0, 10.0, -10.0), rgba(1.0, 1.0, 1.0, 1.0))),
    ]);
    let world = WorldInfo {
        root_object: Body::Group(scene),
        lights,
        limits: Limits { max_light_bounces: 5 },
    };
    let camera = Camera::new(
        p(0.0, 0.0, -5.0),
        v(0.0, 0.0, 1.0),
        v(0.0, 1.0, 0.0),
        sc(1.0),
        sc(1.0),
        rot_deg(90.0),
    );
    let background = rgba(0.0, 0.0, 0.0, 1.0);

    let center = render_pixel(&world, &camera, sc(0.5), sc(0.5), background);
    assert!(!center.fuzzy_eq(background));

    let corner = render_pixel(&world, &camera, sc(0.0), sc(0.0), background);
    assert_eq!(corner.0.units(), background.0.units());
    assert_eq!(corner.1.units(), background.1.units());
    assert_eq!(corner.2.units(), background.2.units());
    assert_eq!(corner.3.units(), background.3.units());
}

#[test]
fn weak_cell_set_returns_the_previous_value() {
    let mut cell: WeakCell<usize> = WeakCell::new(3);
    let old = cell.set(7);
    assert_eq!(old, 3);
    assert_eq!(cell.get(), 7);
}

#[test]
fn arc_helper_wraps_a_value() {
    let sphere = RawSphere::default().as_arc();
    assert!(matches!(&*sphere.material, Material::Phong(_)));
}

#[test]
fn with_material_replaces_the_material() {
    let red = Arc::new(Material::Ambient(Ambient::new(rgba(1.0, 0.0, 0.0, 1.0))));
    let s = Sphere::new(Matrix4f::identity()).with_material(red);
    assert!(matches!(&*s.raw_body.material, Material::Ambient(_)));
}

#[test]
fn noninvertible_transform_has_no_inverse() {
    let zero_scale = Matrix4f::scale_raw(sc(0.0), sc(0.0), sc(0.0));
    assert!(zero_scale.inverse().is_none());
}

#[test]
fn checkerboard_alternates_cells() {
    let ray = Ray::new(p(0.0, 0.0, -5.0), v(0.0, 0.0, 1.0));
    let board = CheckerBoard::new(rgba(1.0, 0.0, 0.0, 1.0), rgba(0.0, 0.0, 1.0, 1.0));
    let world = WorldInfo {
        root_object: Body::Sphere(RawSphere::default()),
        lights: Lights::new(vec![]),
        limits: Limits { max_light_bounces: 5 },
    };
    let mut even = Intersection::new(sc(0.0), Body::Sphere(RawSphere::default()), ray);
    even.world_pos = p(0.1, 0.1, 0.1);
    let mut odd = Intersection::new(sc(0.0), Body::Sphere(RawSphere::default()), ray);
    odd.world_pos = p(0.3, 0.1, 0.1);
    let even_color = board.render(&even, &world);
    let odd_color = board.render(&odd, &world);
    assert!(even_color.fuzzy_eq(rgba(1.0, 0.0, 0.0, 1.0)));
    assert!(odd_color.fuzzy_eq(rgba(0.0, 0.0, 1.0, 1.0)));
}

#[test]
fn lights_aggregate_normalizes_by_summed_alpha() {
    let l1 = Light::Point(PointLight::new(p(0.0, 0.0, 0.0), rgba(1.0, 0.0, 0.0, 1.0)));
    let l2 = Light::Point(PointLight::new(p(0.0, 0.0, 0.0), rgba(0.0, 1.0, 0.0, 1.0)));
    let lights = Lights::new(vec![l1, l2]);
    let r = Ray::new(p(0.0, 0.0, -1.0), v(0.0, 0.0, 1.0));
    let combined = lights.light_effectiveness(r);
    assert!(combined.fuzzy_eq(rgba(0.5, 0.5, 0.0, 2.0)));
}
