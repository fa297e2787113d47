//! Light sources and their aggregate.
//!
//! A light answers how much it contributes along a probe ray: the cosine of
//! the angle between the probe direction and the direction toward the light,
//! scaled by the intensity — and, for a point light, by the inverse square of
//! the distance. The exponentiated variants raise the answer to a shininess
//! power for specular falloff. The aggregate sums every source per channel
//! and then normalizes the color channels by the summed alpha, treating it as
//! a combined weight over the sources.
use vstd::prelude::*;

use crate::color::ColorRGBA;
use crate::point::Point;
use crate::ray::Ray;
use crate::scalar::{fx_add, fx_div, fx_mul, fx_neg, fx_powi, fx_sub, Scalar};
use crate::vector::{dot3, mag3, norm3_c, Vector};

verus! {

/// The zero contribution.
pub open spec fn blank_vals() -> (int, int, int, int) {
    (0, 0, 0, 0)
}

/// Channel-wise sum of two contributions.
pub open spec fn add4(a: (int, int, int, int), b: (int, int, int, int)) -> (int, int, int, int) {
    (fx_add(a.0, b.0), fx_add(a.1, b.1), fx_add(a.2, b.2), fx_add(a.3, b.3))
}

/// The color channels premultiplied by the alpha channel.
pub open spec fn intensify_vals(c: (int, int, int, int)) -> (int, int, int, int) {
    (fx_mul(c.0, c.3), fx_mul(c.1, c.3), fx_mul(c.2, c.3), c.3)
}

/// All four channels of a contribution scaled by one factor. A light's
/// alpha is the weight it carries into the aggregate, so geometric
/// attenuation scales the weight along with the color.
pub open spec fn mul_all_vals(c: (int, int, int, int), k: int) -> (int, int, int, int) {
    (fx_mul(c.0, k), fx_mul(c.1, k), fx_mul(c.2, k), fx_mul(c.3, k))
}

/// Every channel raised to a whole-number power.
pub open spec fn powi_vals(c: (int, int, int, int), n: nat) -> (int, int, int, int) {
    (fx_powi(c.0, n), fx_powi(c.1, n), fx_powi(c.2, n), fx_powi(c.3, n))
}

/// A light source with a position: its contribution falls off with the
/// square of the distance.
#[derive(Clone, Copy, Debug)]
pub struct PointLight {
    pub position: Point,
    pub intensity: ColorRGBA,
}

/// A light source with only a direction: no position and no falloff.
#[derive(Clone, Copy, Debug)]
pub struct DirectionalLight {
    pub direction: Vector,
    pub intensity: ColorRGBA,
}

/// A light source of either kind.
#[derive(Clone, Copy, Debug)]
pub enum Light {
    Point(PointLight),
    Directional(DirectionalLight),
}

/// The cosine of the angle between a probe ray and the direction toward a
/// point light, both normalized.
pub open spec fn point_probe_cos(
    l: PointLight,
    ox: int,
    oy: int,
    oz: int,
    dx: int,
    dy: int,
    dz: int,
) -> int {
    let vx = fx_sub(l.position.x(), ox);
    let vy = fx_sub(l.position.y(), oy);
    let vz = fx_sub(l.position.z(), oz);
    dot3(
        norm3_c(dx, dx, dy, dz),
        norm3_c(dy, dx, dy, dz),
        norm3_c(dz, dx, dy, dz),
        norm3_c(vx, vx, vy, vz),
        norm3_c(vy, vx, vy, vz),
        norm3_c(vz, vx, vy, vz),
    )
}

/// The distance from a probe origin to a point light.
pub open spec fn point_probe_dist(l: PointLight, ox: int, oy: int, oz: int) -> int {
    mag3(fx_sub(l.position.x(), ox), fx_sub(l.position.y(), oy), fx_sub(l.position.z(), oz))
}

/// The contribution of a point light to a probe ray: the cosine of the
/// angle between the probe direction and the direction toward the light,
/// both normalized, scaling the premultiplied intensity over the squared
/// distance, weight included; zero when the probe faces away.
pub open spec fn point_eff_vals(
    l: PointLight,
    ox: int,
    oy: int,
    oz: int,
    dx: int,
    dy: int,
    dz: int,
) -> (int, int, int, int) {
    let dist = point_probe_dist(l, ox, oy, oz);
    let cos = point_probe_cos(l, ox, oy, oz, dx, dy, dz);
    if cos > 0 {
        mul_all_vals(intensify_vals(l.intensity.channels()), fx_div(cos, fx_mul(dist, dist)))
    } else {
        blank_vals()
    }
}

/// The exponentiated contribution of a point light: the plain contribution
/// raised to the shininess power per channel, but only when the probe faces
/// the light — a probe facing away stays blank for every shininess.
pub open spec fn point_eff_exp_vals(
    l: PointLight,
    ox: int,
    oy: int,
    oz: int,
    dx: int,
    dy: int,
    dz: int,
    shininess: nat,
) -> (int, int, int, int) {
    if point_probe_cos(l, ox, oy, oz, dx, dy, dz) > 0 {
        powi_vals(point_eff_vals(l, ox, oy, oz, dx, dy, dz), shininess)
    } else {
        blank_vals()
    }
}

/// The cosine of the angle between a probe ray, normalized, and the fixed
/// direction of a directional light.
pub open spec fn dir_probe_cos(l: DirectionalLight, dx: int, dy: int, dz: int) -> int {
    fx_neg(
        dot3(
            norm3_c(dx, dx, dy, dz),
            norm3_c(dy, dx, dy, dz),
            norm3_c(dz, dx, dy, dz),
            l.direction.x(),
            l.direction.y(),
            l.direction.z(),
        ),
    )
}

/// The contribution of a directional light to a probe ray: the cosine of
/// the angle against the fixed light direction, the probe direction
/// normalized, scaling the intensity, weight included; zero when the probe
/// faces away.
pub open spec fn dir_eff_vals(l: DirectionalLight, dx: int, dy: int, dz: int) -> (
    int,
    int,
    int,
    int,
) {
    let cos = dir_probe_cos(l, dx, dy, dz);
    if cos > 0 {
        mul_all_vals(l.intensity.channels(), cos)
    } else {
        blank_vals()
    }
}

/// The exponentiated contribution of a directional light: the plain
/// contribution raised to the shininess power per channel, but only when
/// the probe faces the light — a probe facing away stays blank for every
/// shininess.
pub open spec fn dir_eff_exp_vals(l: DirectionalLight, dx: int, dy: int, dz: int, shininess: nat) -> (
    int,
    int,
    int,
    int,
) {
    if dir_probe_cos(l, dx, dy, dz) > 0 {
        powi_vals(dir_eff_vals(l, dx, dy, dz), shininess)
    } else {
        blank_vals()
    }
}

/// The contribution of a light of either kind.
pub open spec fn light_eff_vals(
    l: Light,
    ox: int,
    oy: int,
    oz: int,
    dx: int,
    dy: int,
    dz: int,
) -> (int, int, int, int) {
    match l {
        Light::Point(pl) => point_eff_vals(pl, ox, oy, oz, dx, dy, dz),
        Light::Directional(dl) => dir_eff_vals(dl, dx, dy, dz),
    }
}

/// The exponentiated contribution of a light of either kind: the plain
/// contribution with every channel raised to the shininess power.
pub open spec fn light_eff_exp_vals(
    l: Light,
    ox: int,
    oy: int,
    oz: int,
    dx: int,
    dy: int,
    dz: int,
    shininess: nat,
) -> (int, int, int, int) {
    match l {
        Light::Point(pl) => point_eff_exp_vals(pl, ox, oy, oz, dx, dy, dz, shininess),
        Light::Directional(dl) => dir_eff_exp_vals(dl, dx, dy, dz, shininess),
    }
}

/// The channel-wise sum of the contributions of a sequence of lights.
pub open spec fn lights_sum_vals(
    ls: Seq<Light>,
    ox: int,
    oy: int,
    oz: int,
    dx: int,
    dy: int,
    dz: int,
) -> (int, int, int, int)
    decreases ls.len(),
{
    if ls.len() == 0 {
        blank_vals()
    } else {
        add4(
            lights_sum_vals(ls.drop_last(), ox, oy, oz, dx, dy, dz),
            light_eff_vals(ls.last(), ox, oy, oz, dx, dy, dz),
        )
    }
}

/// The channel-wise sum of the exponentiated contributions of a sequence of
/// lights.
pub open spec fn lights_sum_exp_vals(
    ls: Seq<Light>,
    ox: int,
    oy: int,
    oz: int,
    dx: int,
    dy: int,
    dz: int,
    shininess: nat,
) -> (int, int, int, int)
    decreases ls.len(),
{
    if ls.len() == 0 {
        blank_vals()
    } else {
        add4(
            lights_sum_exp_vals(ls.drop_last(), ox, oy, oz, dx, dy, dz, shininess),
            light_eff_exp_vals(ls.last(), ox, oy, oz, dx, dy, dz, shininess),
        )
    }
}

/// A summed contribution with its color channels normalized by the summed
/// alpha.
pub open spec fn alpha_normalized(s: (int, int, int, int)) -> (int, int, int, int) {
    (fx_div(s.0, s.3), fx_div(s.1, s.3), fx_div(s.2, s.3), s.3)
}

/// The aggregate contribution of a collection of lights: every source summed
/// per channel, then normalized by the summed alpha.
pub open spec fn lights_eff_vals(
    ls: Seq<Light>,
    ox: int,
    oy: int,
    oz: int,
    dx: int,
    dy: int,
    dz: int,
) -> (int, int, int, int) {
    alpha_normalized(lights_sum_vals(ls, ox, oy, oz, dx, dy, dz))
}

/// The aggregate exponentiated contribution of a collection of lights.
pub open spec fn lights_eff_exp_vals(
    ls: Seq<Light>,
    ox: int,
    oy: int,
    oz: int,
    dx: int,
    dy: int,
    dz: int,
    shininess: nat,
) -> (int, int, int, int) {
    alpha_normalized(lights_sum_exp_vals(ls, ox, oy, oz, dx, dy, dz, shininess))
}

/// Channel-wise sum of two contributions, alpha included: the aggregate
/// treats the summed alpha as the combined weight of its sources.
fn add_contributions(a: ColorRGBA, b: ColorRGBA) -> (c: ColorRGBA)
    ensures
        c.channels() == add4(a.channels(), b.channels()),
{
    ColorRGBA(a.0.add(b.0), a.1.add(b.1), a.2.add(b.2), a.3.add(b.3))
}

/// A contribution scaled on all four channels: the geometric attenuation of
/// a light applies to its weight as well as to its color.
fn scale_contribution(c: ColorRGBA, k: Scalar) -> (r: ColorRGBA)
    ensures
        r.channels() == mul_all_vals(c.channels(), k@),
{
    ColorRGBA(c.0.mul(k), c.1.mul(k), c.2.mul(k), c.3.mul(k))
}

impl PointLight {
    /// The point light at a position with an intensity.
    pub fn new(position: Point, intensity: ColorRGBA) -> (r: PointLight)
        ensures
            r.position == position,
            r.intensity == intensity,
    {
        PointLight { position, intensity }
    }

    /// The contribution of this light to a probe ray.
    pub fn light_effectiveness(&self, r: Ray) -> (c: ColorRGBA)
        ensures
            c.channels() == point_eff_vals(
                *self,
                r.origin.x(),
                r.origin.y(),
                r.origin.z(),
                r.direction.x(),
                r.direction.y(),
                r.direction.z(),
            ),
    {
        let direction = self.position.sub(r.origin);
        let distance = direction.magnitude();
        let direction = direction.normalize();
        let cosine = r.direction.normalize().dot(direction);
        if Scalar::zero().lt(cosine) {
            scale_contribution(self.intensity.intensify(), cosine.div(distance.mul(distance)))
        } else {
            ColorRGBA::blank()
        }
    }

    /// The contribution with every channel raised to a shininess power; a
    /// probe facing away stays blank whatever the shininess.
    pub fn light_effectiveness_exp(&self, r: Ray, shininess: u32) -> (c: ColorRGBA)
        ensures
            c.channels() == point_eff_exp_vals(
                *self,
                r.origin.x(),
                r.origin.y(),
                r.origin.z(),
                r.direction.x(),
                r.direction.y(),
                r.direction.z(),
                shininess as nat,
            ),
    {
        let direction = self.position.sub(r.origin);
        let distance = direction.magnitude();
        let direction = direction.normalize();
        let cosine = r.direction.normalize().dot(direction);
        if Scalar::zero().lt(cosine) {
            scale_contribution(self.intensity.intensify(), cosine.div(distance.mul(distance)))
                .powi(shininess)
        } else {
            ColorRGBA::blank()
        }
    }
}

impl DirectionalLight {
    /// The directional light along a direction, normalized on construction,
    /// with an intensity.
    pub fn new(direction: Vector, intensity: ColorRGBA) -> (r: DirectionalLight)
        ensures
            r.direction.x() == norm3_c(
                direction.x(),
                direction.x(),
                direction.y(),
                direction.z(),
            ),
            r.direction.y() == norm3_c(
                direction.y(),
                direction.x(),
                direction.y(),
                direction.z(),
            ),
            r.direction.z() == norm3_c(
                direction.z(),
                direction.x(),
                direction.y(),
                direction.z(),
            ),
            r.direction.w() == 0,
            r.intensity == intensity,
    {
        DirectionalLight { direction: direction.normalize(), intensity }
    }

    /// The contribution of this light to a probe ray.
    pub fn light_effectiveness(&self, r: Ray) -> (c: ColorRGBA)
        ensures
            c.channels() == dir_eff_vals(
                *self,
                r.direction.x(),
                r.direction.y(),
                r.direction.z(),
            ),
    {
        let cosine = r.direction.normalize().dot(self.direction).neg();
        if Scalar::zero().lt(cosine) {
            scale_contribution(self.intensity, cosine)
        } else {
            ColorRGBA::blank()
        }
    }

    /// The contribution with every channel raised to a shininess power; a
    /// probe facing away stays blank whatever the shininess.
    pub fn light_effectiveness_exp(&self, r: Ray, shininess: u32) -> (c: ColorRGBA)
        ensures
            c.channels() == dir_eff_exp_vals(
                *self,
                r.direction.x(),
                r.direction.y(),
                r.direction.z(),
                shininess as nat,
            ),
    {
        let cosine = r.direction.normalize().dot(self.direction).neg();
        if Scalar::zero().lt(cosine) {
            scale_contribution(self.intensity, cosine).powi(shininess)
        } else {
            ColorRGBA::blank()
        }
    }
}

impl Light {
    /// The contribution of this light to a probe ray.
    pub fn light_effectiveness(&self, r: Ray) -> (c: ColorRGBA)
        ensures
            c.channels() == light_eff_vals(
                *self,
                r.origin.x(),
                r.origin.y(),
                r.origin.z(),
                r.direction.x(),
                r.direction.y(),
                r.direction.z(),
            ),
    {
        match self {
            Light::Point(pl) => pl.light_effectiveness(r),
            Light::Directional(dl) => dl.light_effectiveness(r),
        }
    }

    /// The contribution with every channel raised to a shininess power.
    pub fn light_effectiveness_exp(&self, r: Ray, shininess: u32) -> (c: ColorRGBA)
        ensures
            c.channels() == light_eff_exp_vals(
                *self,
                r.origin.x(),
                r.origin.y(),
                r.origin.z(),
                r.direction.x(),
                r.direction.y(),
                r.direction.z(),
                shininess as nat,
            ),
    {
        match self {
            Light::Point(pl) => pl.light_effectiveness_exp(r, shininess),
            Light::Directional(dl) => dl.light_effectiveness_exp(r, shininess),
        }
    }
}

/// A collection of light sources acting as one.
#[derive(Debug)]
pub struct Lights {
    pub lights: Vec<Light>,
}

impl Lights {
    /// The collection of the given lights.
    pub fn new(lights: Vec<Light>) -> (r: Lights)
        ensures
            r.lights == lights,
    {
        Lights { lights }
    }

    /// The aggregate contribution of every light to a probe ray, normalized
    /// by the summed alpha.
    pub fn light_effectiveness(&self, r: Ray) -> (c: ColorRGBA)
        ensures
            c.channels() == lights_eff_vals(
                self.lights@,
                r.origin.x(),
                r.origin.y(),
                r.origin.z(),
                r.direction.x(),
                r.direction.y(),
                r.direction.z(),
            ),
    {
        let ghost ox = r.origin.x();
        let ghost oy = r.origin.y();
        let ghost oz = r.origin.z();
        let ghost dx = r.direction.x();
        let ghost dy = r.direction.y();
        let ghost dz = r.direction.z();
        let mut color = ColorRGBA::blank();
        let mut i: usize = 0;
        while i < self.lights.len()
            invariant
                i <= self.lights.len(),
                r.origin.x() == ox && r.origin.y() == oy && r.origin.z() == oz,
                r.direction.x() == dx && r.direction.y() == dy && r.direction.z() == dz,
                color.channels() == lights_sum_vals(
                    self.lights@.subrange(0, i as int),
                    ox,
                    oy,
                    oz,
                    dx,
                    dy,
                    dz,
                ),
            decreases self.lights.len() - i,
        {
            let lf = self.lights[i].light_effectiveness(r);
            color = add_contributions(color, lf);
            i = i + 1;
            proof {
                let pre = self.lights@.subrange(0, i as int - 1);
                let cur = self.lights@.subrange(0, i as int);
                assert(cur.drop_last() =~= pre);
                assert(cur.last() == self.lights@[i as int - 1]);
            }
        }
        proof {
            assert(self.lights@.subrange(0, self.lights@.len() as int) =~= self.lights@);
        }
        ColorRGBA(color.0.div(color.3), color.1.div(color.3), color.2.div(color.3), color.3)
    }

    /// The aggregate exponentiated contribution of every light to a probe
    /// ray, normalized by the summed alpha.
    pub fn light_effectiveness_exp(&self, r: Ray, shininess: u32) -> (c: ColorRGBA)
        ensures
            c.channels() == lights_eff_exp_vals(
                self.lights@,
                r.origin.x(),
                r.origin.y(),
                r.origin.z(),
                r.direction.x(),
                r.direction.y(),
                r.direction.z(),
                shininess as nat,
            ),
    {
        let ghost ox = r.origin.x();
        let ghost oy = r.origin.y();
        let ghost oz = r.origin.z();
        let ghost dx = r.direction.x();
        let ghost dy = r.direction.y();
        let ghost dz = r.direction.z();
        let mut color = ColorRGBA::blank();
        let mut i: usize = 0;
        while i < self.lights.len()
            invariant
                i <= self.lights.len(),
                r.origin.x() == ox && r.origin.y() == oy && r.origin.z() == oz,
                r.direction.x() == dx && r.direction.y() == dy && r.direction.z() == dz,
                color.channels() == lights_sum_exp_vals(
                    self.lights@.subrange(0, i as int),
                    ox,
                    oy,
                    oz,
                    dx,
                    dy,
                    dz,
                    shininess as nat,
                ),
            decreases self.lights.len() - i,
        {
            let lf = self.lights[i].light_effectiveness_exp(r, shininess);
            color = add_contributions(color, lf);
            i = i + 1;
            proof {
                let pre = self.lights@.subrange(0, i as int - 1);
                let cur = self.lights@.subrange(0, i as int);
                assert(cur.drop_last() =~= pre);
                assert(cur.last() == self.lights@[i as int - 1]);
            }
        }
        proof {
            assert(self.lights@.subrange(0, self.lights@.len() as int) =~= self.lights@);
        }
        ColorRGBA(color.0.div(color.3), color.1.div(color.3), color.2.div(color.3), color.3)
    }
}

} // verus!
