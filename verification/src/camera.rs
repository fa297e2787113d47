//! The camera: mapping normalized image-plane coordinates to world rays.
use vstd::prelude::*;

use crate::point::Point;
use crate::ray::Ray;
use crate::rotation::Rotation;
use crate::scalar::{fx_add, fx_div, fx_max, fx_mul, fx_sub, Scalar, SCALE};
use crate::vector::{cross3, norm3_c, Vector};

verus! {

/// The distance of the image plane along the forward axis: the cotangent of
/// half the field of view, scaled by half the larger image dimension. The
/// cotangent of the half angle is computed from the full angle's sine and
/// cosine as their sum with one over the sine.
pub open spec fn camera_z(sin: int, cos: int, hsize: int, vsize: int) -> int {
    fx_mul(fx_mul(fx_div(fx_add(SCALE as int, cos), sin), 500_000), fx_max(hsize, vsize))
}

/// The direction a camera casts through a normalized image position: the
/// recentered image coordinates along the orthogonalized right and up axes,
/// plus the forward axis scaled by the image-plane distance.
pub open spec fn camera_dir(c: Camera, x: int, y: int) -> (int, int, int) {
    let px = fx_mul(fx_sub(x, 500_000), c.hsize@);
    let py = fx_mul(fx_sub(500_000, y), c.vsize@);
    let rgt = cross3(
        c.forward.x(),
        c.forward.y(),
        c.forward.z(),
        c.up.x(),
        c.up.y(),
        c.up.z(),
    );
    let right = (
        norm3_c(rgt.0, rgt.0, rgt.1, rgt.2),
        norm3_c(rgt.1, rgt.0, rgt.1, rgt.2),
        norm3_c(rgt.2, rgt.0, rgt.1, rgt.2),
    );
    let upn = cross3(
        right.0,
        right.1,
        right.2,
        c.forward.x(),
        c.forward.y(),
        c.forward.z(),
    );
    let up = (
        norm3_c(upn.0, upn.0, upn.1, upn.2),
        norm3_c(upn.1, upn.0, upn.1, upn.2),
        norm3_c(upn.2, upn.0, upn.1, upn.2),
    );
    (
        fx_add(fx_add(fx_mul(right.0, px), fx_mul(up.0, py)), fx_mul(c.forward.x(), c.z@)),
        fx_add(fx_add(fx_mul(right.1, px), fx_mul(up.1, py)), fx_mul(c.forward.y(), c.z@)),
        fx_add(fx_add(fx_mul(right.2, px), fx_mul(up.2, py)), fx_mul(c.forward.z(), c.z@)),
    )
}

/// The ray a camera casts through a normalized image position: from the
/// camera position along the normalized cast direction.
pub open spec fn camera_ray_ok(c: Camera, x: int, y: int, r: Ray) -> bool {
    let d = camera_dir(c, x, y);
    &&& r.origin == c.position
    &&& r.direction.x() == norm3_c(d.0, d.0, d.1, d.2)
    &&& r.direction.y() == norm3_c(d.1, d.0, d.1, d.2)
    &&& r.direction.z() == norm3_c(d.2, d.0, d.1, d.2)
    &&& r.direction.w() == 0
}

/// A camera: a position and orientation, an image size, and a field of
/// view condensed into the image-plane distance.
#[derive(Clone, Copy, Debug)]
pub struct Camera {
    pub position: Point,
    pub forward: Vector,
    pub up: Vector,
    pub hsize: Scalar,
    pub vsize: Scalar,
    pub z: Scalar,
}

impl Camera {
    /// The camera at a position, looking along a forward axis with an up
    /// axis, an image extent, and a field of view.
    pub fn new(
        position: Point,
        forward: Vector,
        up: Vector,
        hsize: Scalar,
        vsize: Scalar,
        fov: Rotation,
    ) -> (r: Camera)
        ensures
            r.position == position,
            r.forward.x() == norm3_c(forward.x(), forward.x(), forward.y(), forward.z()),
            r.forward.y() == norm3_c(forward.y(), forward.x(), forward.y(), forward.z()),
            r.forward.z() == norm3_c(forward.z(), forward.x(), forward.y(), forward.z()),
            r.forward.w() == 0,
            r.up.x() == norm3_c(up.x(), up.x(), up.y(), up.z()),
            r.up.y() == norm3_c(up.y(), up.x(), up.y(), up.z()),
            r.up.z() == norm3_c(up.z(), up.x(), up.y(), up.z()),
            r.up.w() == 0,
            r.hsize == hsize,
            r.vsize == vsize,
            r.z@ == camera_z(fov.sin@, fov.cos@, hsize@, vsize@),
    {
        let half = Scalar::from_units(500_000);
        let cot_half_fov = Scalar::one().add(fov.cos).div(fov.sin);
        Camera {
            position,
            forward: forward.normalize(),
            up: up.normalize(),
            hsize,
            vsize,
            z: cot_half_fov.mul(half).mul(hsize.max(vsize)),
        }
    }

    /// The ray cast through a normalized image position, both coordinates
    /// in the unit interval.
    #[verifier::rlimit(100)]
    pub fn ray_for_pos(&self, x: Scalar, y: Scalar) -> (r: Ray)
        ensures
            camera_ray_ok(*self, x@, y@, r),
            r.origin == self.position,
            r.wf() == self.position.is_point(),
    {
        let half = Scalar::from_units(500_000);
        let px = x.sub(half);
        let py = half.sub(y);
        let px = px.mul(self.hsize);
        let py = py.mul(self.vsize);
        let forward = self.forward;
        let up = self.up;
        let right = forward.cross(up).normalize();
        proof {
            let rgt = cross3(
                self.forward.x(),
                self.forward.y(),
                self.forward.z(),
                self.up.x(),
                self.up.y(),
                self.up.z(),
            );
            assert(right.x() == norm3_c(rgt.0, rgt.0, rgt.1, rgt.2));
            assert(right.y() == norm3_c(rgt.1, rgt.0, rgt.1, rgt.2));
            assert(right.z() == norm3_c(rgt.2, rgt.0, rgt.1, rgt.2));
        }
        let up = right.cross(forward).normalize();
        proof {
            let upn = cross3(
                right.x(),
                right.y(),
                right.z(),
                self.forward.x(),
                self.forward.y(),
                self.forward.z(),
            );
            assert(up.x() == norm3_c(upn.0, upn.0, upn.1, upn.2));
            assert(up.y() == norm3_c(upn.1, upn.0, upn.1, upn.2));
            assert(up.z() == norm3_c(upn.2, upn.0, upn.1, upn.2));
        }
        let origin = self.position;
        let direction = right.scale(px).add(up.scale(py)).add(forward.scale(self.z));
        proof {
            let d = camera_dir(*self, x@, y@);
            assert(direction.x() == d.0);
            assert(direction.y() == d.1);
            assert(direction.z() == d.2);
        }
        Ray::new(origin, direction.normalize())
    }
}

} // verus!
