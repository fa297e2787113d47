use raytracer::camera::Camera;
use raytracer::color::ColorRGBA;
use raytracer::fuzzy_comparison::FuzzyPartialEq;
use raytracer::light::{DirectionalLight, PointLight};
use raytracer::material::Phong;
use raytracer::point::Point;
use raytracer::ray::Ray;
use raytracer::rotation::Rotation;
use raytracer::scalar::Scalar;
use raytracer::vector::Vector;

fn sc(x: f64) -> Scalar {
    Scalar::from_units((x * 1_000_000.0).round() as i64)
}

fn rgba(r: f64, g: f64, b: f64, a: f64) -> ColorRGBA {
    ColorRGBA::new(sc(r), sc(g), sc(b), sc(a))
}

fn p(x: f64, y: f64, z: f64) -> Point {
    Point::new(sc(x), sc(y), sc(z))
}

fn v(x: f64, y: f64, z: f64) -> Vector {
    Vector::new(sc(x), sc(y), sc(z))
}

fn rot_deg(d: f64) -> Rotation {
    let radians = d.to_radians();
    Rotation::new(sc(radians.sin()), sc(radians.cos()))
}

#[test]
fn point_light_new() {
    let position = p(1.0, 2.0, 3.0);
    let intensity = rgba(1.0, 1.0, 1.0, 1.0);
    let l = PointLight::new(position, intensity);
    assert!(l.position.fuzzy_eq(position));
    assert!(l.intensity.fuzzy_eq(intensity));
}

#[test]
fn point_light_light_effectiveness() {
    let position = p(0.0, 0.0, 0.0);
    let intensity = rgba(1.0, 1.0, 1.0, 1.0);
    let l = PointLight::new(position, intensity);

    let r = Ray::new(p(0.0, 0.0, -1.0), v(0.0, 0.0, 1.0));
    assert!(l.light_effectiveness(r).fuzzy_eq(intensity.mul_all(sc(1.0))));
    let r = Ray::new(p(0.0, 0.0, -1.0), v(0.0, 1.0, 0.0));
    assert!(l.light_effectiveness(r).fuzzy_eq(ColorRGBA::blank()));
    let r = Ray::new(p(0.0, 0.0, -1.0), v(0.0, 0.0, -1.0));
    assert!(l.light_effectiveness(r).fuzzy_eq(ColorRGBA::blank()));
}

#[test]
fn point_light_falloff_with_square_of_distance() {
    let l = PointLight::new(p(0.0, 0.0, 0.0), rgba(1.0, 1.0, 1.0, 1.0));
    // The inverse-square factor scales all four channels: the alpha is the
    // weight the light carries into the aggregate.
    let at_two = l.light_effectiveness(Ray::new(p(0.0, 0.0, -2.0), v(0.0, 0.0, 1.0)));
    assert!(at_two.fuzzy_eq(rgba(0.25, 0.25, 0.25, 0.25)));
    let at_three = l.light_effectiveness(Ray::new(p(0.0, 0.0, -3.0), v(0.0, 0.0, 1.0)));
    assert!(at_three.0.fuzzy_eq(sc(1.0 / 9.0)));
    assert!(at_three.3.fuzzy_eq(sc(1.0 / 9.0)));
    let away = l.light_effectiveness(Ray::new(p(0.0, 0.0, -2.0), v(0.0, 0.0, -1.0)));
    assert!(away.fuzzy_eq(ColorRGBA::blank()));
}

#[test]
fn facing_away_stays_blank_for_every_shininess() {
    let l = PointLight::new(p(0.0, 0.0, 0.0), rgba(1.0, 1.0, 1.0, 1.0));
    let away = Ray::new(p(0.0, 0.0, -2.0), v(0.0, 0.0, -1.0));
    assert!(l.light_effectiveness_exp(away, 0).fuzzy_eq(ColorRGBA::blank()));
    assert!(l.light_effectiveness_exp(away, 60).fuzzy_eq(ColorRGBA::blank()));
    let d = DirectionalLight::new(v(0.0, -1.0, 0.0), rgba(1.0, 1.0, 1.0, 1.0));
    let away = Ray::new(p(0.0, 0.0, 0.0), v(0.0, -1.0, 0.0));
    assert!(d.light_effectiveness_exp(away, 0).fuzzy_eq(ColorRGBA::blank()));
}

#[test]
fn directional_light_new() {
    let direction = v(1.0, 2.0, 3.0);
    let intensity = rgba(1.0, 1.0, 1.0, 1.0);
    let l = DirectionalLight::new(direction, intensity);
    assert!(l.direction.fuzzy_eq(direction.normalize()));
    assert!(l.intensity.fuzzy_eq(intensity));
}

#[test]
fn directional_light_should_not_care_about_origin() {
    let direction = v(0.0, -1.0, 0.0);
    let intensity = rgba(1.0, 1.0, 1.0, 1.0);
    let l = DirectionalLight::new(direction, intensity);

    let r = Ray::new(p(2.0, 7.0, 4.0), v(0.0, 1.0, 0.0));
    assert!(l.light_effectiveness(r).fuzzy_eq(intensity));
    let r = Ray::new(p(98.0, 4.0, 6.0), v(0.0, 1.0, 0.0));
    assert!(l.light_effectiveness(r).fuzzy_eq(intensity));
}

#[test]
fn directional_light_45deg() {
    let direction = v(0.0, -1.0, 0.0);
    let intensity = rgba(1.0, 1.0, 1.0, 1.0);
    let l = DirectionalLight::new(direction, intensity);

    let r = Ray::new(p(0.0, 0.0, 0.0), v(0.0, 1.0, 1.0));
    // Every channel, alpha included, carries the cosine of the half-right
    // angle.
    let k = (2.0f64).sqrt() / 2.0;
    assert!(l.light_effectiveness(r).fuzzy_eq(rgba(k, k, k, k)));
}

#[test]
fn default_phong_material() {
    let m = Phong::default();
    assert!(m.ambient.fuzzy_eq(rgba(0.1, 0.1, 0.1, 1.0)));
    assert!(m.diffuse.fuzzy_eq(rgba(0.9, 0.9, 0.9, 1.0)));
    assert!(m.specular.fuzzy_eq(rgba(0.9, 0.9, 0.9, 1.0)));
    assert_eq!(m.shininess, 0);
}

#[test]
fn phong_material_can_be_constructed_with_builder() {
    let ambient = rgba(0.05, 0.05, 0.05, 1.0);
    let diffuse = rgba(0.7, 0.7, 0.7, 1.0);
    let specular = rgba(0.95, 0.95, 0.95, 1.0);
    let shininess: u32 = 400;

    let m = Phong::default()
        .with_ambient(ambient)
        .with_diffuse(diffuse)
        .with_specular(specular)
        .with_shininess(shininess);

    assert!(m.ambient.fuzzy_eq(ambient));
    assert!(m.diffuse.fuzzy_eq(diffuse));
    assert!(m.specular.fuzzy_eq(specular));
    assert_eq!(m.shininess, shininess);
}

#[test]
fn test_camera_new() {
    let camera = Camera::new(
        p(0.0, 0.0, 0.0),
        v(0.0, 0.0, 1.0),
        v(0.0, 1.0, 0.0),
        sc(1.0),
        sc(1.0),
        rot_deg(90.0),
    );
    assert!(camera.position.fuzzy_eq(p(0.0, 0.0, 0.0)));
    assert!(camera.forward.fuzzy_eq(v(0.0, 0.0, 1.0)));
    assert!(camera.up.fuzzy_eq(v(0.0, 1.0, 0.0)));
    assert!(camera.hsize.fuzzy_eq(sc(1.0)));
    assert!(camera.vsize.fuzzy_eq(sc(1.0)));
    assert!(camera.z.fuzzy_eq(sc(0.5)));
}

#[test]
fn test_camera_ray_for_pos() {
    let camera = Camera::new(
        p(0.0, 0.0, 0.0),
        v(0.0, 0.0, 1.0),
        v(0.0, 1.0, 0.0),
        sc(1.0),
        sc(1.0),
        rot_deg(90.0),
    );
    let r = camera.ray_for_pos(sc(0.5), sc(0.5));
    assert!(r.origin.fuzzy_eq(p(0.0, 0.0, 0.0)));
    assert!(r.direction.fuzzy_eq(v(0.0, 0.0, 1.0).normalize()));
}
