//! Geometric bodies: the unit sphere, its transformed placement in the
//! world, and the scene that aggregates bodies.
//!
//! A raw sphere is the unit sphere at the local origin. A transformed body
//! places a raw sphere in the world under an invertible affine map, caching
//! the inverse for carrying rays into local space and the transpose of the
//! inverse for carrying normals back out — the correct normal rule under
//! non-uniform scale. A scene aggregates transformed bodies; intersecting it
//! intersects every child and stamps each result with the scene itself.
use std::sync::Arc;
use vstd::prelude::*;

use crate::intersection::{intersection_ok, Intersection};
use crate::material::{Material, Phong};
use crate::matrix::{apply_at, cof4_spec, det4_spec, Matrix4f};
use crate::point::Point;
use crate::ray::Ray;
use crate::scalar::{
    fx_add, fx_div, fx_mul, fx_neg, fx_powi, fx_sqrt, fx_sub, Scalar, SCALE,
};
use crate::vector::{dot3, norm3_c, sqr_mag3, Vector};

verus! {

/// The parametric distances at which a ray meets the unit sphere at the
/// origin: none when the discriminant of the quadratic is negative, the
/// double root alone when it is zero, and the two ordered roots otherwise.
/// Both roots are returned whatever their sign, so a caller can tell that
/// the ray starts inside or behind the sphere.
pub open spec fn sphere_ts(ox: int, oy: int, oz: int, dx: int, dy: int, dz: int) -> Seq<int> {
    let sx = fx_sub(ox, 0);
    let sy = fx_sub(oy, 0);
    let sz = fx_sub(oz, 0);
    let a = sqr_mag3(dx, dy, dz);
    let b = fx_mul(2 * SCALE as int, dot3(dx, dy, dz, sx, sy, sz));
    let c = fx_sub(sqr_mag3(sx, sy, sz), SCALE as int);
    let disc = fx_sub(fx_powi(b, 2), fx_mul(fx_mul(4 * SCALE as int, a), c));
    if disc < 0 {
        Seq::empty()
    } else if disc == 0 {
        seq![fx_div(fx_neg(b), fx_mul(2 * SCALE as int, a))]
    } else {
        seq![
            fx_div(fx_sub(fx_neg(b), fx_sqrt(disc)), fx_mul(2 * SCALE as int, a)),
            fx_div(fx_add(fx_neg(b), fx_sqrt(disc)), fx_mul(2 * SCALE as int, a)),
        ]
    }
}

/// Law: the distances at which a ray meets the sphere come out in ascending
/// order, so a double crossing always reports the near face first.
pub proof fn lemma_sphere_roots_ordered(ox: int, oy: int, oz: int, dx: int, dy: int, dz: int)
    ensures
        ({
            let ts = sphere_ts(ox, oy, oz, dx, dy, dz);
            ts.len() == 2 ==> ts[0] <= ts[1]
        }),
{
    let sx = fx_sub(ox, 0);
    let sy = fx_sub(oy, 0);
    let sz = fx_sub(oz, 0);
    let a = sqr_mag3(dx, dy, dz);
    let b = fx_mul(2 * SCALE as int, dot3(dx, dy, dz, sx, sy, sz));
    let c = fx_sub(sqr_mag3(sx, sy, sz), SCALE as int);
    let disc = fx_sub(fx_powi(b, 2), fx_mul(fx_mul(4 * SCALE as int, a), c));
    if disc > 0 {
        let root = fx_sqrt(disc);
        crate::scalar::lemma_fx_sqrt_nonneg(disc);
        assert(dx * dx >= 0) by (nonlinear_arith);
        assert(dy * dy >= 0) by (nonlinear_arith);
        assert(dz * dz >= 0) by (nonlinear_arith);
        vstd::arithmetic::div_mod::lemma_div_pos_is_pos(dx * dx, SCALE as int);
        vstd::arithmetic::div_mod::lemma_div_pos_is_pos(dy * dy, SCALE as int);
        vstd::arithmetic::div_mod::lemma_div_pos_is_pos(dz * dz, SCALE as int);
        assert(a >= 0);
        let denom = fx_mul(2 * SCALE as int, a);
        assert(denom >= 0) by {
            assert(2 * SCALE as int * a >= 0) by (nonlinear_arith)
                requires a >= 0;
            vstd::arithmetic::div_mod::lemma_div_pos_is_pos(
                2 * SCALE as int * a,
                SCALE as int,
            );
        }
        if denom > 0 {
            crate::scalar::lemma_tdiv_monotone(
                fx_sub(fx_neg(b), root) * (SCALE as int),
                fx_add(fx_neg(b), root) * (SCALE as int),
                denom,
            );
        }
        let ts = sphere_ts(ox, oy, oz, dx, dy, dz);
        assert(ts[0] == fx_div(fx_sub(fx_neg(b), root), denom));
        assert(ts[1] == fx_div(fx_add(fx_neg(b), root), denom));
    }
}

/// The local normal of the unit sphere at a surface point: the displacement
/// from the origin, normalized.
pub open spec fn sphere_normal3(x: int, y: int, z: int) -> (int, int, int) {
    let sx = fx_sub(x, 0);
    let sy = fx_sub(y, 0);
    let sz = fx_sub(z, 0);
    (norm3_c(sx, sx, sy, sz), norm3_c(sy, sx, sy, sz), norm3_c(sz, sx, sy, sz))
}

/// The world normal of a transformed body at a world point: the point is
/// carried into local space by the inverse, the sphere answers its local
/// normal, and the transpose of the inverse carries it back, renormalized.
pub open spec fn tb_normal3(tb: TransformedBody, x: int, y: int, z: int) -> (int, int, int) {
    let lx = apply_at(tb.inv_mat(), x, y, z, SCALE as int, 0);
    let ly = apply_at(tb.inv_mat(), x, y, z, SCALE as int, 1);
    let lz = apply_at(tb.inv_mat(), x, y, z, SCALE as int, 2);
    let sn = sphere_normal3(lx, ly, lz);
    let wx = apply_at(tb.tinv_mat(), sn.0, sn.1, sn.2, 0, 0);
    let wy = apply_at(tb.tinv_mat(), sn.0, sn.1, sn.2, 0, 1);
    let wz = apply_at(tb.tinv_mat(), sn.0, sn.1, sn.2, 0, 2);
    (norm3_c(wx, wx, wy, wz), norm3_c(wy, wx, wy, wz), norm3_c(wz, wx, wy, wz))
}

/// Law: the world normal of a transformed body is fuzzily unit length
/// whenever the vector the transpose-inverse carries back is long enough
/// for the final renormalization to bite: at least a fifth of a whole, with
/// components inside half the representable range. (The transpose-inverse
/// rule, not the forward transform, feeds the renormalization, so this holds
/// under non-uniform scale and rotation alike.)
pub proof fn lemma_tb_normal_unit(tb: TransformedBody, x: int, y: int, z: int)
    requires
        ({
            let lx = apply_at(tb.inv_mat(), x, y, z, SCALE as int, 0);
            let ly = apply_at(tb.inv_mat(), x, y, z, SCALE as int, 1);
            let lz = apply_at(tb.inv_mat(), x, y, z, SCALE as int, 2);
            let sn = sphere_normal3(lx, ly, lz);
            let wx = apply_at(tb.tinv_mat(), sn.0, sn.1, sn.2, 0, 0);
            let wy = apply_at(tb.tinv_mat(), sn.0, sn.1, sn.2, 0, 1);
            let wz = apply_at(tb.tinv_mat(), sn.0, sn.1, sn.2, 0, 2);
            &&& crate::vector::mag3(wx, wy, wz) >= 200_000
            &&& crate::scalar::iabs(wx) <= 2_000_000_000_000_000
            &&& crate::scalar::iabs(wy) <= 2_000_000_000_000_000
            &&& crate::scalar::iabs(wz) <= 2_000_000_000_000_000
        }),
    ensures
        ({
            let n = tb_normal3(tb, x, y, z);
            crate::scalar::fx_fuzzy_eq(crate::vector::mag3(n.0, n.1, n.2), SCALE as int)
        }),
{
    let lx = apply_at(tb.inv_mat(), x, y, z, SCALE as int, 0);
    let ly = apply_at(tb.inv_mat(), x, y, z, SCALE as int, 1);
    let lz = apply_at(tb.inv_mat(), x, y, z, SCALE as int, 2);
    let sn = sphere_normal3(lx, ly, lz);
    let wx = apply_at(tb.tinv_mat(), sn.0, sn.1, sn.2, 0, 0);
    let wy = apply_at(tb.tinv_mat(), sn.0, sn.1, sn.2, 0, 1);
    let wz = apply_at(tb.tinv_mat(), sn.0, sn.1, sn.2, 0, 2);
    crate::vector::lemma_normalize_unit(wx, wy, wz);
}

/// The normal a body reports at a world point; a scene reports none.
pub open spec fn body_normal3(b: Body, x: int, y: int, z: int) -> (int, int, int) {
    match b {
        Body::Sphere(_) => sphere_normal3(x, y, z),
        Body::Transformed(tb) => tb_normal3(tb, x, y, z),
        Body::Group(_) => (0, 0, 0),
    }
}

/// The unit sphere at the local origin, carrying its material.
#[derive(Debug)]
pub struct RawSphere {
    pub material: Arc<Material>,
}

impl Clone for RawSphere {
    fn clone(&self) -> (r: Self)
        ensures
            r == *self,
    {
        RawSphere { material: crate::util::arc_clone(&self.material) }
    }
}

impl RawSphere {
    /// A sphere with the stock monolithic shading material.
    pub fn default() -> (r: RawSphere)
        ensures
            match *r.material {
                Material::Phong(p) => crate::material::is_default_phong(p),
                _ => false,
            },
    {
        RawSphere { material: Arc::new(Material::Phong(Phong::default())) }
    }
}

/// The parametric distances at which a ray meets the unit sphere.
fn sphere_solve(ray: &Ray) -> (out: Vec<Scalar>)
    ensures
        ({
            let ts = sphere_ts(
                ray.origin.x(),
                ray.origin.y(),
                ray.origin.z(),
                ray.direction.x(),
                ray.direction.y(),
                ray.direction.z(),
            );
            &&& out@.len() == ts.len()
            &&& forall|j: int| 0 <= j < ts.len() ==> (#[trigger] out@[j])@ == ts[j]
        }),
{
    let two = Scalar::from_whole(2);
    let four = Scalar::from_whole(4);
    let sphere_to_ray = ray.origin.sub(Point::origin());
    let a = ray.direction.sqr_magnitude();
    let b = two.mul(ray.direction.dot(sphere_to_ray));
    let c = sphere_to_ray.sqr_magnitude().sub(Scalar::one());
    let discriminant = b.powi(2).sub(four.mul(a).mul(c));
    let mut out: Vec<Scalar> = Vec::new();
    if discriminant.is_neg() {
    } else if discriminant.eq_exact(Scalar::zero()) {
        let t = b.neg().div(two.mul(a));
        out.push(t);
    } else {
        let root = discriminant.sqrt();
        let t1 = b.neg().sub(root).div(two.mul(a));
        let t2 = b.neg().add(root).div(two.mul(a));
        out.push(t1);
        out.push(t2);
    }
    out
}

impl RawSphere {
    /// The intersections of a ray with this sphere, in its own local frame.
    pub fn intersect(&self, ray: &Ray) -> (out: Vec<Intersection>)
        ensures
            ({
                let ts = sphere_ts(
                    ray.origin.x(),
                    ray.origin.y(),
                    ray.origin.z(),
                    ray.direction.x(),
                    ray.direction.y(),
                    ray.direction.z(),
                );
                &&& out@.len() == ts.len()
                &&& forall|j: int|
                    0 <= j < ts.len() ==> intersection_ok(
                        #[trigger] out@[j],
                        ts[j],
                        Body::Sphere(*self),
                        *ray,
                        Option::None,
                    )
            }),
    {
        let ts = sphere_solve(ray);
        let mut out: Vec<Intersection> = Vec::new();
        let mut j: usize = 0;
        while j < ts.len()
            invariant
                j <= ts@.len(),
                ts@.len() == sphere_ts(
                    ray.origin.x(),
                    ray.origin.y(),
                    ray.origin.z(),
                    ray.direction.x(),
                    ray.direction.y(),
                    ray.direction.z(),
                ).len(),
                forall|k: int|
                    0 <= k < ts@.len() ==> (#[trigger] ts@[k])@ == sphere_ts(
                        ray.origin.x(),
                        ray.origin.y(),
                        ray.origin.z(),
                        ray.direction.x(),
                        ray.direction.y(),
                        ray.direction.z(),
                    )[k],
                out@.len() == j,
                forall|k: int|
                    0 <= k < j ==> intersection_ok(
                        #[trigger] out@[k],
                        ts@[k]@,
                        Body::Sphere(*self),
                        *ray,
                        Option::None,
                    ),
            decreases ts@.len() - j,
        {
            out.push(Intersection::new(ts[j], Body::Sphere(self.clone()), *ray));
            j = j + 1;
        }
        out
    }

    /// The local normal of the sphere at a surface point.
    pub fn normal_raw(&self, x: Scalar, y: Scalar, z: Scalar) -> (n: Vector)
        ensures
            (n.x(), n.y(), n.z()) == sphere_normal3(x@, y@, z@),
            n.w() == 0,
    {
        Point::new(x, y, z).sub(Point::origin()).normalize()
    }

    /// The local normal of the sphere at a surface point.
    pub fn normal(&self, p: Point) -> (n: Vector)
        ensures
            (n.x(), n.y(), n.z()) == sphere_normal3(p.x(), p.y(), p.z()),
            n.w() == 0,
    {
        self.normal_raw(p.0.0, p.0.1, p.0.2)
    }

    /// A handle to the sphere's material.
    pub fn get_material(&self) -> (m: Arc<Material>)
        ensures
            m == self.material,
    {
        crate::util::arc_clone(&self.material)
    }
}

/// A body placed in the world under an invertible affine transform.
#[derive(Debug)]
pub struct TransformedBody {
    pub transformation: Matrix4f,
    pub inverse_transformation: Matrix4f,
    pub transpose_inverse_transformation: Matrix4f,
    pub raw_body: RawSphere,
}

/// The unit sphere under a transform: the one concrete renderable body.
pub type Sphere = TransformedBody;

impl Clone for TransformedBody {
    fn clone(&self) -> (r: Self)
        ensures
            r == *self,
    {
        TransformedBody {
            transformation: self.transformation,
            inverse_transformation: self.inverse_transformation,
            transpose_inverse_transformation: self.transpose_inverse_transformation,
            raw_body: self.raw_body.clone(),
        }
    }
}

impl TransformedBody {
    /// The transform that places the body in the world.
    pub open spec fn transformation_mat(&self) -> Matrix4f {
        self.transformation
    }

    /// The cached inverse, with its homogeneous row forced exact.
    pub open spec fn inv_mat(&self) -> Matrix4f {
        self.inverse_transformation
    }

    /// The cached transpose of the inverse, with its homogeneous row forced
    /// exact.
    pub open spec fn tinv_mat(&self) -> Matrix4f {
        self.transpose_inverse_transformation
    }

    /// Both cached maps keep the homogeneous row exact, so points stay
    /// points and vectors stay vectors under them.
    pub open spec fn wf(&self) -> bool {
        self.inv_mat().is_affine() && self.tinv_mat().is_affine()
    }

    /// The inverse holds the cofactors of the transform over its
    /// determinant, transposed, for the rows that carry geometry.
    pub open spec fn inverse_cached(&self) -> bool {
        forall|rr: int, cc: int|
            0 <= rr < 3 && 0 <= cc < 4 ==> #[trigger] self.inv_mat().at(rr, cc) == fx_div(
                cof4_spec(self.transformation_mat(), cc, rr),
                det4_spec(self.transformation_mat()),
            )
    }

    /// The transpose cache mirrors the inverse for the rows that carry
    /// geometry.
    pub open spec fn transpose_cached(&self) -> bool {
        forall|rr: int, cc: int|
            0 <= rr < 3 && 0 <= cc < 4 ==> #[trigger] self.tinv_mat().at(rr, cc)
                == self.inv_mat().at(cc, rr)
    }

    /// The body under a transform, with the default sphere. The transform
    /// must be invertible: a body whose transform cannot be inverted could
    /// never map world rays into its local space.
    pub fn new(transformation: Matrix4f) -> (r: TransformedBody)
        requires
            det4_spec(transformation) != 0,
        ensures
            r.transformation_mat() == transformation,
            match *r.raw_body.material {
                Material::Phong(p) => crate::material::is_default_phong(p),
                _ => false,
            },
            r.wf(),
            r.inverse_cached(),
            r.transpose_cached(),
    {
        Self::new_with_body(transformation, RawSphere::default())
    }

    /// The given body under a transform. The transform must be invertible.
    pub fn new_with_body(transformation: Matrix4f, raw_body: RawSphere) -> (r: TransformedBody)
        requires
            det4_spec(transformation) != 0,
        ensures
            r.transformation_mat() == transformation,
            r.raw_body == raw_body,
            r.wf(),
            r.inverse_cached(),
            r.transpose_cached(),
    {
        let inv_raw = transformation.inverse().unwrap();
        let inverse = inv_raw.fix_transform();
        let tr = inverse.transpose();
        let tinv = tr.fix_transform();
        proof {
            assert forall|rr: int, cc: int| 0 <= rr < 3 && 0 <= cc < 4 implies #[trigger] inverse.at(
                rr,
                cc,
            ) == inv_raw.at(rr, cc) by {
                assert(inverse.row(rr) == inv_raw.row(rr));
            }
            assert forall|rr: int, cc: int| 0 <= rr < 3 && 0 <= cc < 4 implies #[trigger] tinv.at(
                rr,
                cc,
            ) == inverse.at(cc, rr) by {
                assert(tinv.row(rr) == tr.row(rr));
                assert(tr.at(rr, cc) == inverse.at(cc, rr));
                assert(tinv.at(rr, cc) == tr.at(rr, cc));
            }
        }
        TransformedBody {
            transformation,
            inverse_transformation: inverse,
            transpose_inverse_transformation: tinv,
            raw_body,
        }
    }

    /// Replaces the transform, recomputing both caches. The new transform
    /// must be invertible.
    pub fn set_transformation(&mut self, transformation: Matrix4f)
        requires
            det4_spec(transformation) != 0,
        ensures
            final(self).transformation_mat() == transformation,
            final(self).raw_body == old(self).raw_body,
            final(self).wf(),
            final(self).inverse_cached(),
            final(self).transpose_cached(),
    {
        let inv_raw = transformation.inverse().unwrap();
        let inverse = inv_raw.fix_transform();
        let tr = inverse.transpose();
        let tinv = tr.fix_transform();
        proof {
            assert forall|rr: int, cc: int| 0 <= rr < 3 && 0 <= cc < 4 implies #[trigger] inverse.at(
                rr,
                cc,
            ) == inv_raw.at(rr, cc) by {
                assert(inverse.row(rr) == inv_raw.row(rr));
            }
            assert forall|rr: int, cc: int| 0 <= rr < 3 && 0 <= cc < 4 implies #[trigger] tinv.at(
                rr,
                cc,
            ) == inverse.at(cc, rr) by {
                assert(tinv.row(rr) == tr.row(rr));
                assert(tr.at(rr, cc) == inverse.at(cc, rr));
                assert(tinv.at(rr, cc) == tr.at(rr, cc));
            }
        }
        self.transformation = transformation;
        self.inverse_transformation = inverse;
        self.transpose_inverse_transformation = tinv;
    }

    /// The intersections of a world ray with this body: the ray is carried
    /// into local space by the cached inverse and solved against the unit
    /// sphere; each result records the original world ray and this body.
    pub fn intersect(&self, ray: &Ray) -> (out: Vec<Intersection>)
        requires
            self.wf(),
            ray.wf(),
        ensures
            tb_ints_ok(*self, *ray, out@),
    {
        let local_ray = self.inverse_transformation.mul_ray(ray);
        let ts = sphere_solve(&local_ray);
        let ghost lts = sphere_ts(
            local_ray.origin.x(),
            local_ray.origin.y(),
            local_ray.origin.z(),
            local_ray.direction.x(),
            local_ray.direction.y(),
            local_ray.direction.z(),
        );
        let mut out: Vec<Intersection> = Vec::new();
        let mut j: usize = 0;
        while j < ts.len()
            invariant
                j <= ts@.len(),
                self.wf(),
                ts@.len() == lts.len(),
                forall|k: int| 0 <= k < ts@.len() ==> (#[trigger] ts@[k])@ == lts[k],
                lts == tb_local_ts(*self, *ray),
                out@.len() == j,
                forall|k: int|
                    0 <= k < j ==> intersection_ok(
                        #[trigger] out@[k],
                        lts[k],
                        Body::Transformed(*self),
                        *ray,
                        Option::None,
                    ),
            decreases ts@.len() - j,
        {
            out.push(Intersection::new(ts[j], Body::Transformed(self.clone()), *ray));
            j = j + 1;
        }
        out
    }

    /// The world normal of this body at a world point.
    pub fn normal_raw(&self, x: Scalar, y: Scalar, z: Scalar) -> (n: Vector)
        requires
            self.wf(),
        ensures
            (n.x(), n.y(), n.z()) == tb_normal3(*self, x@, y@, z@),
            n.w() == 0,
    {
        let local_point = self.inverse_transformation.mul_point(Point::new(x, y, z));
        let local_normal = self.raw_body.normal(local_point);
        self.transpose_inverse_transformation.mul_vector(local_normal).normalize()
    }

    /// The world normal of this body at a world point.
    pub fn normal(&self, p: Point) -> (n: Vector)
        requires
            self.wf(),
        ensures
            (n.x(), n.y(), n.z()) == tb_normal3(*self, p.x(), p.y(), p.z()),
            n.w() == 0,
    {
        self.normal_raw(p.0.0, p.0.1, p.0.2)
    }

    /// A handle to the wrapped body's material.
    pub fn get_material(&self) -> (m: Arc<Material>)
        ensures
            m == self.raw_body.material,
    {
        self.raw_body.get_material()
    }
}

/// The local-space distances a world ray reaches a transformed body at.
pub open spec fn tb_local_ts(tb: TransformedBody, ray: Ray) -> Seq<int> {
    sphere_ts(
        apply_at(tb.inv_mat(), ray.origin.x(), ray.origin.y(), ray.origin.z(), SCALE as int, 0),
        apply_at(tb.inv_mat(), ray.origin.x(), ray.origin.y(), ray.origin.z(), SCALE as int, 1),
        apply_at(tb.inv_mat(), ray.origin.x(), ray.origin.y(), ray.origin.z(), SCALE as int, 2),
        apply_at(tb.inv_mat(), ray.direction.x(), ray.direction.y(), ray.direction.z(), 0, 0),
        apply_at(tb.inv_mat(), ray.direction.x(), ray.direction.y(), ray.direction.z(), 0, 1),
        apply_at(tb.inv_mat(), ray.direction.x(), ray.direction.y(), ray.direction.z(), 0, 2),
    )
}

/// A transformed body's intersections: one per local-space root, each
/// recording the world ray, the body, and no container.
pub open spec fn tb_ints_ok(tb: TransformedBody, ray: Ray, out: Seq<Intersection>) -> bool {
    let ts = tb_local_ts(tb, ray);
    &&& out.len() == ts.len()
    &&& forall|j: int|
        0 <= j < ts.len() ==> intersection_ok(
            #[trigger] out[j],
            ts[j],
            Body::Transformed(tb),
            ray,
            Option::None,
        )
}

/// A transformed body's intersections stamped with the scene they were found
/// through.
pub open spec fn tb_ints_stamped_ok(
    tb: TransformedBody,
    scene: Scene,
    ray: Ray,
    out: Seq<Intersection>,
) -> bool {
    let ts = tb_local_ts(tb, ray);
    &&& out.len() == ts.len()
    &&& forall|j: int|
        0 <= j < ts.len() ==> intersection_ok(
            #[trigger] out[j],
            ts[j],
            Body::Transformed(tb),
            ray,
            Option::Some(scene),
        )
}

/// A scene's intersections: the concatenation, child by child, of each
/// child's intersections, every one stamped with the scene.
pub open spec fn scene_ints_ok(
    bodies: Seq<TransformedBody>,
    scene: Scene,
    ray: Ray,
    out: Seq<Intersection>,
) -> bool
    decreases bodies.len(),
{
    if bodies.len() == 0 {
        out.len() == 0
    } else {
        let n = tb_local_ts(bodies.last(), ray).len();
        &&& out.len() >= n
        &&& scene_ints_ok(
            bodies.drop_last(),
            scene,
            ray,
            out.subrange(0, out.len() - n),
        )
        &&& tb_ints_stamped_ok(
            bodies.last(),
            scene,
            ray,
            out.subrange(out.len() - n, out.len() as int),
        )
    }
}

/// An aggregate of bodies acting as one; a coordination node, not itself a
/// renderable surface.
#[derive(Debug)]
pub struct Scene {
    pub bodies: Arc<Vec<TransformedBody>>,
}

impl Clone for Scene {
    fn clone(&self) -> (r: Self)
        ensures
            r == *self,
    {
        Scene { bodies: crate::util::arc_clone(&self.bodies) }
    }
}

impl Scene {
    /// Every child keeps its homogeneous rows exact.
    pub open spec fn wf(&self) -> bool {
        forall|i: int| 0 <= i < self.bodies@.len() ==> (#[trigger] self.bodies@[i]).wf()
    }

    /// The scene aggregating the given bodies.
    pub fn new(bodies: Vec<TransformedBody>) -> (r: Scene)
        ensures
            r.bodies@ == bodies@,
    {
        Scene { bodies: Arc::new(bodies) }
    }

    /// The intersections of a ray with every child, each stamped with this
    /// scene as the container it was found through.
    pub fn intersect(&self, ray: &Ray) -> (out: Vec<Intersection>)
        requires
            self.wf(),
            ray.wf(),
        ensures
            scene_ints_ok(self.bodies@, *self, *ray, out@),
    {
        let mut out: Vec<Intersection> = Vec::new();
        let mut i: usize = 0;
        let bodies: &Vec<TransformedBody> = &self.bodies;
        while i < bodies.len()
            invariant
                i <= bodies@.len(),
                bodies@ == self.bodies@,
                self.wf(),
                ray.wf(),
                scene_ints_ok(self.bodies@.subrange(0, i as int), *self, *ray, out@),
            decreases bodies@.len() - i,
        {
            let child_ints = bodies[i].intersect(ray);
            let ghost out_before = out@;
            let mut j: usize = 0;
            while j < child_ints.len()
                invariant
                    j <= child_ints@.len(),
                    self.wf(),
                    ray.wf(),
                    i < bodies@.len(),
                    bodies@ == self.bodies@,
                    tb_ints_ok(bodies@[i as int], *ray, child_ints@),
                    out@.len() == out_before.len() + j,
                    out@.subrange(0, out_before.len() as int) == out_before,
                    forall|k: int|
                        0 <= k < j ==> intersection_ok(
                            #[trigger] out@[out_before.len() + k],
                            tb_local_ts(bodies@[i as int], *ray)[k],
                            Body::Transformed(bodies@[i as int]),
                            *ray,
                            Option::Some(*self),
                        ),
                decreases child_ints@.len() - j,
            {
                out.push(child_ints[j].clone().with_top_level_object(self.clone()));
                proof {
                    assert(out@.subrange(0, out_before.len() as int) =~= out_before);
                }
                j = j + 1;
            }
            i = i + 1;
            proof {
                let pre = self.bodies@.subrange(0, i as int - 1);
                let cur = self.bodies@.subrange(0, i as int);
                assert(cur.drop_last() =~= pre);
                assert(cur.last() == self.bodies@[i as int - 1]);
                let n = tb_local_ts(self.bodies@[i as int - 1], *ray).len();
                assert(out@.subrange(0, out@.len() - n) =~= out_before);
                let suffix = out@.subrange(out@.len() - n, out@.len() as int);
                assert forall|jj: int| 0 <= jj < n implies intersection_ok(
                    #[trigger] suffix[jj],
                    tb_local_ts(self.bodies@[i as int - 1], *ray)[jj],
                    Body::Transformed(self.bodies@[i as int - 1]),
                    *ray,
                    Option::Some(*self),
                ) by {
                    assert(suffix[jj] == out@[out_before.len() + jj]);
                }
                assert(tb_ints_stamped_ok(
                    self.bodies@[i as int - 1],
                    *self,
                    *ray,
                    suffix,
                ));
            }
        }
        proof {
            assert(self.bodies@.subrange(0, self.bodies@.len() as int) =~= self.bodies@);
        }
        out
    }
}

/// A body's intersections with a ray, whichever kind the body is.
pub open spec fn body_ints_ok(b: Body, ray: Ray, out: Seq<Intersection>) -> bool {
    match b {
        Body::Sphere(rs) => {
            let ts = sphere_ts(
                ray.origin.x(),
                ray.origin.y(),
                ray.origin.z(),
                ray.direction.x(),
                ray.direction.y(),
                ray.direction.z(),
            );
            &&& out.len() == ts.len()
            &&& forall|j: int|
                0 <= j < ts.len() ==> intersection_ok(
                    #[trigger] out[j],
                    ts[j],
                    Body::Sphere(rs),
                    ray,
                    Option::None,
                )
        },
        Body::Transformed(tb) => tb_ints_ok(tb, ray, out),
        Body::Group(sc) => scene_ints_ok(sc.bodies@, sc, ray, out),
    }
}

/// The material a body answers shading lookups with.
pub open spec fn body_material(b: Body) -> Material {
    match b {
        Body::Sphere(s) => *s.material,
        Body::Transformed(t) => *t.raw_body.material,
        Body::Group(_) => vstd::pervasive::arbitrary(),
    }
}

/// Every intersection a scene produces names one of its children, never the
/// scene itself: the hit target handed to shading is always a renderable
/// surface.
pub proof fn lemma_scene_ints_elements(
    bodies: Seq<TransformedBody>,
    scene: Scene,
    ray: Ray,
    out: Seq<Intersection>,
)
    requires
        scene_ints_ok(bodies, scene, ray, out),
    ensures
        forall|j: int|
            0 <= j < out.len() ==> !(#[trigger] out[j]).object.is_group() && (out[j].object
                matches Body::Transformed(tb) && bodies.contains(tb)),
    decreases bodies.len(),
{
    if bodies.len() > 0 {
        let n = tb_local_ts(bodies.last(), ray).len();
        lemma_scene_ints_elements(
            bodies.drop_last(),
            scene,
            ray,
            out.subrange(0, out.len() - n),
        );
        assert forall|j: int|
            0 <= j < out.len() implies !(#[trigger] out[j]).object.is_group() && (out[j].object
            matches Body::Transformed(tb) && bodies.contains(tb)) by {
            if j < out.len() - n {
                assert(out.subrange(0, out.len() - n)[j] == out[j]);
                assert(bodies.drop_last().contains(out[j].object->Transformed_0));
                let witness = choose|k: int|
                    0 <= k < bodies.drop_last().len() && bodies.drop_last()[k] == out[j].object->Transformed_0;
                assert(bodies[witness] == out[j].object->Transformed_0);
            } else {
                let suffix = out.subrange(out.len() - n, out.len() as int);
                assert(suffix[j - (out.len() - n)] == out[j]);
                assert(intersection_ok(
                    out[j],
                    tb_local_ts(bodies.last(), ray)[j - (out.len() - n)],
                    Body::Transformed(bodies.last()),
                    ray,
                    Option::Some(scene),
                ));
                assert(bodies[bodies.len() - 1] == bodies.last());
            }
        }
    }
}

/// A body's intersections name no scene as the hit target, and every named
/// body keeps its transform caches exact.
pub proof fn lemma_body_ints_elements(b: Body, ray: Ray, out: Seq<Intersection>)
    requires
        body_ints_ok(b, ray, out),
        b.wf(),
    ensures
        forall|j: int|
            0 <= j < out.len() ==> !(#[trigger] out[j]).object.is_group() && out[j].object.wf(),
{
    match b {
        Body::Sphere(_) => {
        },
        Body::Transformed(_) => {
        },
        Body::Group(sc) => {
            lemma_scene_ints_elements(sc.bodies@, sc, ray, out);
            assert forall|j: int|
                0 <= j < out.len() implies !(#[trigger] out[j]).object.is_group()
                && out[j].object.wf() by {
                let tb = out[j].object->Transformed_0;
                assert(sc.bodies@.contains(tb));
                let k = choose|k: int| 0 <= k < sc.bodies@.len() && sc.bodies@[k] == tb;
                assert(sc.bodies@[k].wf());
            }
        },
    }
}

/// A geometric body of any of the closed set of kinds.
#[derive(Debug)]
pub enum Body {
    Sphere(RawSphere),
    Transformed(TransformedBody),
    Group(Scene),
}

impl Clone for Body {
    fn clone(&self) -> (r: Self)
        ensures
            r == *self,
    {
        match self {
            Body::Sphere(s) => Body::Sphere(s.clone()),
            Body::Transformed(t) => Body::Transformed(t.clone()),
            Body::Group(g) => Body::Group(g.clone()),
        }
    }
}

impl Body {
    /// Whether this body is a scene.
    pub open spec fn is_group(&self) -> bool {
        self is Group
    }

    /// Every transform cache the body carries keeps its homogeneous rows
    /// exact.
    pub open spec fn wf(&self) -> bool {
        match *self {
            Body::Sphere(_) => true,
            Body::Transformed(tb) => tb.wf(),
            Body::Group(s) => s.wf(),
        }
    }

    /// The intersections of a ray with this body.
    pub fn intersect(&self, ray: &Ray) -> (out: Vec<Intersection>)
        requires
            self.wf(),
            ray.wf(),
        ensures
            body_ints_ok(*self, *ray, out@),
    {
        match self {
            Body::Sphere(s) => s.intersect(ray),
            Body::Transformed(t) => t.intersect(ray),
            Body::Group(g) => g.intersect(ray),
        }
    }

    /// The world normal of this body at a world point. A scene is a
    /// coordination node and reports no normal; asking it for one is a
    /// malformed scene graph.
    pub fn normal_raw(&self, x: Scalar, y: Scalar, z: Scalar) -> (n: Vector)
        requires
            self.wf(),
            !self.is_group(),
        ensures
            (n.x(), n.y(), n.z()) == body_normal3(*self, x@, y@, z@),
            n.w() == 0,
    {
        match self {
            Body::Sphere(s) => s.normal_raw(x, y, z),
            Body::Transformed(t) => t.normal_raw(x, y, z),
            Body::Group(_) => vstd::pervasive::unreached(),
        }
    }

    /// The world normal of this body at a world point.
    pub fn normal(&self, p: Point) -> (n: Vector)
        requires
            self.wf(),
            !self.is_group(),
        ensures
            (n.x(), n.y(), n.z()) == body_normal3(*self, p.x(), p.y(), p.z()),
            n.w() == 0,
    {
        self.normal_raw(p.0.0, p.0.1, p.0.2)
    }

    /// A handle to the body's material. A scene carries no material of its
    /// own; asking it for one is a malformed scene graph.
    pub fn get_material(&self) -> (m: Arc<Material>)
        requires
            !self.is_group(),
        ensures
            self matches Body::Sphere(s) ==> m == s.material,
            self matches Body::Transformed(t) ==> m == t.raw_body.material,
    {
        match self {
            Body::Sphere(s) => s.get_material(),
            Body::Transformed(t) => t.get_material(),
            Body::Group(_) => vstd::pervasive::unreached(),
        }
    }
}

/// Rebuilding a body around a different material.
pub trait BodyBuilder: Sized {
    /// The body this builder yields for a material.
    spec fn built_with(&self, material: Arc<Material>) -> Self;

    /// This body with its material replaced.
    fn with_material(&self, material: Arc<Material>) -> (r: Self)
        ensures
            r == self.built_with(material),
    ;
}

impl BodyBuilder for RawSphere {
    open spec fn built_with(&self, material: Arc<Material>) -> RawSphere {
        RawSphere { material }
    }

    fn with_material(&self, material: Arc<Material>) -> (r: RawSphere) {
        RawSphere { material }
    }
}

impl BodyBuilder for TransformedBody {
    open spec fn built_with(&self, material: Arc<Material>) -> TransformedBody {
        TransformedBody { raw_body: RawSphere { material }, ..*self }
    }

    fn with_material(&self, material: Arc<Material>) -> (r: TransformedBody) {
        TransformedBody {
            transformation: self.transformation,
            inverse_transformation: self.inverse_transformation,
            transpose_inverse_transformation: self.transpose_inverse_transformation,
            raw_body: RawSphere { material },
        }
    }
}

} // verus!
