//! The per-pixel computation of a render.
//!
//! A pixel's color is a pure function of the world and its normalized image
//! coordinate: cast the camera ray, intersect it with the root body, and
//! shade the nearest forward hit with its material — or fall back to the
//! background color when the ray misses everything. The surrounding program
//! owns the pixel loop, the buffer, and the image file; this function owns
//! the logic.
use vstd::prelude::*;

use crate::body::{body_ints_ok, body_material, lemma_body_ints_elements};
use crate::camera::{camera_ray_ok, Camera};
use crate::color::ColorRGBA;
use crate::intersection::{hit_upto, Intersection, IntersectionList};
use crate::material::render_spec;
use crate::ray::Ray;
use crate::scalar::Scalar;
use crate::world_info::WorldInfo;

verus! {

/// The color a render writes for one pixel: the shaded nearest hit of the
/// camera ray through the world, or exactly the background color when the
/// ray misses every body.
pub open spec fn pixel_ok(
    world: WorldInfo,
    camera: Camera,
    x: int,
    y: int,
    background: ColorRGBA,
    result: ColorRGBA,
) -> bool {
    exists|ray: Ray, ints: Seq<Intersection>|
        {
            &&& #[trigger] camera_ray_ok(camera, x, y, ray)
            &&& #[trigger] body_ints_ok(world.root_object, ray, ints)
            &&& match hit_upto(ints, ints.len() as int) {
                Option::None => result == background,
                Option::Some(j) => result.channels() == render_spec(
                    body_material(ints[j].object),
                    ints[j],
                    world,
                ),
            }
        }
}

/// Renders one pixel: casts the camera ray for the normalized coordinates,
/// intersects it with the root body, and shades the nearest forward hit, or
/// answers the background color exactly when nothing is hit.
pub fn render_pixel(
    world: &WorldInfo,
    camera: &Camera,
    x: Scalar,
    y: Scalar,
    background: ColorRGBA,
) -> (c: ColorRGBA)
    requires
        world.root_object.wf(),
        camera.position.is_point(),
    ensures
        pixel_ok(*world, *camera, x@, y@, background, c),
{
    let ray = camera.ray_for_pos(x, y);
    let intersections = world.root_object.intersect(&ray);
    proof {
        lemma_body_ints_elements(world.root_object, ray, intersections@);
    }
    let c = match intersections.hit() {
        Some(hit) => hit.object.get_material().render(hit, world),
        None => background,
    };
    proof {
        assert(camera_ray_ok(*camera, x@, y@, ray));
        assert(pixel_ok(*world, *camera, x@, y@, background, c)) by {
            assert(camera_ray_ok(*camera, x@, y@, ray) && body_ints_ok(
                world.root_object,
                ray,
                intersections@,
            ));
        }
    }
    c
}

} // verus!
