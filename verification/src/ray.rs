//! Rays: an origin and a direction, cast through the world.
use vstd::prelude::*;

use crate::matrix::{apply_at, Matrix4f};
use crate::point::Point;
use crate::scalar::{fx_add, fx_mul, Scalar, SCALE};
use crate::vector::Vector;

verus! {

/// A ray from an origin along a direction.
#[derive(Clone, Copy, Debug)]
pub struct Ray {
    pub origin: Point,
    pub direction: Vector,
}

impl Ray {
    /// The origin carries the point tag and the direction the vector tag.
    pub open spec fn wf(&self) -> bool {
        self.origin.is_point() && self.direction.is_vector()
    }

    /// The ray with the given origin and direction.
    pub fn new(origin: Point, direction: Vector) -> (r: Ray)
        ensures
            r.origin == origin,
            r.direction == direction,
    {
        Ray { origin, direction }
    }

    /// The point a parameter distance along the ray.
    pub fn at(&self, t: Scalar) -> (r: Point)
        ensures
            r.x() == fx_add(self.origin.x(), fx_mul(self.direction.x(), t@)),
            r.y() == fx_add(self.origin.y(), fx_mul(self.direction.y(), t@)),
            r.z() == fx_add(self.origin.z(), fx_mul(self.direction.z(), t@)),
            r.is_point(),
    {
        self.origin.add(self.direction.scale(t))
    }
}

impl Matrix4f {
    /// The ray carried through an affine map: both its origin and its
    /// direction are transformed.
    pub fn mul_ray(self, ray: &Ray) -> (r: Ray)
        requires
            self.is_affine(),
            ray.wf(),
        ensures
            r.origin.x() == apply_at(
                self,
                ray.origin.x(),
                ray.origin.y(),
                ray.origin.z(),
                SCALE as int,
                0,
            ),
            r.origin.y() == apply_at(
                self,
                ray.origin.x(),
                ray.origin.y(),
                ray.origin.z(),
                SCALE as int,
                1,
            ),
            r.origin.z() == apply_at(
                self,
                ray.origin.x(),
                ray.origin.y(),
                ray.origin.z(),
                SCALE as int,
                2,
            ),
            r.direction.x() == apply_at(
                self,
                ray.direction.x(),
                ray.direction.y(),
                ray.direction.z(),
                0,
                0,
            ),
            r.direction.y() == apply_at(
                self,
                ray.direction.x(),
                ray.direction.y(),
                ray.direction.z(),
                0,
                1,
            ),
            r.direction.z() == apply_at(
                self,
                ray.direction.x(),
                ray.direction.y(),
                ray.direction.z(),
                0,
                2,
            ),
            r.wf(),
    {
        let origin = self.mul_point(ray.origin);
        let direction = self.mul_vector(ray.direction);
        Ray::new(origin, direction)
    }
}

} // verus!
