//! Materials: the shading functions mapping an intersection and the world to
//! a color.
//!
//! A material is either the monolithic Phong model or a composition of
//! single-effect materials: a stack folds its children over alpha
//! compositing, the multiply combinator folds them over channel products.
use vstd::prelude::*;

use crate::color::{mix_vals, ColorRGBA, MixMode};
use crate::intersection::Intersection;
use crate::light::{blank_vals, lights_eff_exp_vals, lights_eff_vals};
use crate::ray::Ray;
use crate::scalar::{fx_mul, iabs, tdiv, Scalar, SCALE};
use crate::vector::reflect3;
use crate::world_info::WorldInfo;

verus! {

/// The diffuse term of a shading call: the aggregate light contribution
/// along the surface normal at the hit, zero when the summed alpha is not
/// positive, otherwise multiplied against a diffuse color.
pub open spec fn diffuse_vals(color: ColorRGBA, i: Intersection, w: WorldInfo) -> (
    int,
    int,
    int,
    int,
) {
    let ldn = lights_eff_vals(
        w.lights.lights@,
        i.world_pos.x(),
        i.world_pos.y(),
        i.world_pos.z(),
        i.world_normal.x(),
        i.world_normal.y(),
        i.world_normal.z(),
    );
    if ldn.3 <= 0 {
        blank_vals()
    } else {
        mix_vals(ldn, color.channels(), MixMode::Mul)
    }
}

/// The specular term of a shading call: the exponentiated aggregate light
/// contribution along the reflection of the incoming ray, zero when the
/// summed alpha is not positive, otherwise multiplied against a specular
/// color.
pub open spec fn specular_vals(color: ColorRGBA, shininess: nat, i: Intersection, w: WorldInfo) -> (
    int,
    int,
    int,
    int,
) {
    let refl = reflect3(
        i.ray.direction.x(),
        i.ray.direction.y(),
        i.ray.direction.z(),
        i.world_normal.x(),
        i.world_normal.y(),
        i.world_normal.z(),
    );
    let rdl = lights_eff_exp_vals(
        w.lights.lights@,
        i.world_pos.x(),
        i.world_pos.y(),
        i.world_pos.z(),
        refl.0,
        refl.1,
        refl.2,
        shininess,
    );
    if rdl.3 <= 0 {
        blank_vals()
    } else {
        mix_vals(rdl, color.channels(), MixMode::Mul)
    }
}

/// The monolithic Phong evaluation: ambient as the base layer, the diffuse
/// term composited over it, the specular term on top. When the diffuse light
/// carries no alpha, both the diffuse and the specular terms are zero.
pub open spec fn phong_vals(p: Phong, i: Intersection, w: WorldInfo) -> (int, int, int, int) {
    let ldn = lights_eff_vals(
        w.lights.lights@,
        i.world_pos.x(),
        i.world_pos.y(),
        i.world_pos.z(),
        i.world_normal.x(),
        i.world_normal.y(),
        i.world_normal.z(),
    );
    let diffuse = if ldn.3 <= 0 {
        blank_vals()
    } else {
        mix_vals(ldn, p.diffuse.channels(), MixMode::Mul)
    };
    let specular = if ldn.3 <= 0 {
        blank_vals()
    } else {
        specular_vals(p.specular, p.shininess as nat, i, w)
    };
    mix_vals(
        mix_vals(p.ambient.channels(), diffuse, MixMode::Alpha),
        specular,
        MixMode::Alpha,
    )
}

/// The checkerboard evaluation: the hit position is quartered into cells and
/// the two colors alternate with the parity of the cell coordinates.
pub open spec fn checkerboard_vals(m: CheckerBoard, i: Intersection) -> (int, int, int, int) {
    let x = tdiv(fx_mul(i.world_pos.x(), 4 * SCALE as int), SCALE as int);
    let y = tdiv(fx_mul(i.world_pos.y(), 4 * SCALE as int), SCALE as int);
    let z = tdiv(fx_mul(i.world_pos.z(), 4 * SCALE as int), SCALE as int);
    if iabs(x + y + z) % 2 == 0 {
        m.color1.channels()
    } else {
        m.color2.channels()
    }
}

/// What a material evaluates to at an intersection.
pub open spec fn render_spec(m: Material, i: Intersection, w: WorldInfo) -> (int, int, int, int)
    decreases m,
{
    match m {
        Material::Phong(p) => phong_vals(p, i, w),
        Material::Ambient(a) => a.color.channels(),
        Material::Diffuse(d) => diffuse_vals(d.color, i, w),
        Material::Specular(s) => specular_vals(s.color, s.shininess as nat, i, w),
        Material::CheckerBoard(c) => checkerboard_vals(c, i),
        Material::Stack(stack) => fold_mats(
            stack.materials@,
            i,
            w,
            (SCALE as int, 0, SCALE as int, SCALE as int),
            MixMode::Alpha,
        ),
        Material::Multiply(mult) => fold_mats(
            mult.materials@,
            i,
            w,
            (SCALE as int, SCALE as int, SCALE as int, SCALE as int),
            MixMode::Mul,
        ),
    }
}

/// A sequence of materials folded left to right over a mix mode, starting
/// from a seed color.
pub open spec fn fold_mats(
    ms: Seq<Material>,
    i: Intersection,
    w: WorldInfo,
    acc: (int, int, int, int),
    mode: MixMode,
) -> (int, int, int, int)
    decreases ms,
{
    if ms.len() == 0 {
        acc
    } else {
        mix_vals(
            fold_mats(ms.drop_last(), i, w, acc, mode),
            render_spec(ms.last(), i, w),
            mode,
        )
    }
}

/// The monolithic shading model: ambient, diffuse and specular colors with
/// one shininess exponent.
#[derive(Clone, Copy, Debug)]
pub struct Phong {
    pub ambient: ColorRGBA,
    pub diffuse: ColorRGBA,
    pub specular: ColorRGBA,
    pub shininess: u32,
}

/// The stock shading material: a dim ambient base under strong diffuse and
/// specular colors, with no shininess falloff.
pub open spec fn is_default_phong(p: Phong) -> bool {
    &&& p.ambient.channels() == (100_000int, 100_000int, 100_000int, 1_000_000int)
    &&& p.diffuse.channels() == (900_000int, 900_000int, 900_000int, 1_000_000int)
    &&& p.specular.channels() == (900_000int, 900_000int, 900_000int, 1_000_000int)
    &&& p.shininess == 0u32
}

impl Phong {
    /// The stock shading material.
    pub fn default() -> (r: Phong)
        ensures
            is_default_phong(r),
    {
        let dim = Scalar::from_units(100_000);
        let strong = Scalar::from_units(900_000);
        let one = Scalar::one();
        Phong {
            ambient: ColorRGBA(dim, dim, dim, one),
            diffuse: ColorRGBA(strong, strong, strong, one),
            specular: ColorRGBA(strong, strong, strong, one),
            shininess: 0,
        }
    }
}

impl Phong {
    /// This material with the ambient color replaced.
    pub fn with_ambient(&self, ambient: ColorRGBA) -> (r: Phong)
        ensures
            r == (Phong { ambient, ..*self }),
    {
        Phong { ambient, ..*self }
    }

    /// This material with the diffuse color replaced.
    pub fn with_diffuse(&self, diffuse: ColorRGBA) -> (r: Phong)
        ensures
            r == (Phong { diffuse, ..*self }),
    {
        Phong { diffuse, ..*self }
    }

    /// This material with the specular color replaced.
    pub fn with_specular(&self, specular: ColorRGBA) -> (r: Phong)
        ensures
            r == (Phong { specular, ..*self }),
    {
        Phong { specular, ..*self }
    }

    /// This material with the shininess replaced.
    pub fn with_shininess(&self, shininess: u32) -> (r: Phong)
        ensures
            r == (Phong { shininess, ..*self }),
    {
        Phong { shininess, ..*self }
    }

    /// What this material evaluates to at an intersection.
    pub fn render(&self, intersection: &Intersection, world_info: &WorldInfo) -> (c: ColorRGBA)
        ensures
            c.channels() == phong_vals(*self, *intersection, *world_info),
    {
        let light_dot_normal = world_info.lights.light_effectiveness(
            Ray::new(intersection.world_pos, intersection.world_normal),
        );
        let (diffuse, specular) = if !Scalar::zero().lt(light_dot_normal.3) {
            (ColorRGBA::blank(), ColorRGBA::blank())
        } else {
            let reflectv = Ray::new(
                intersection.world_pos,
                intersection.ray.direction.reflect_across(intersection.world_normal),
            );
            let reflect_dot_light = world_info.lights.light_effectiveness_exp(
                reflectv,
                self.shininess,
            );
            let specular = if !Scalar::zero().lt(reflect_dot_light.3) {
                ColorRGBA::blank()
            } else {
                reflect_dot_light.mix(self.specular, MixMode::Mul)
            };
            (light_dot_normal.mix(self.diffuse, MixMode::Mul), specular)
        };
        self.ambient.mix(diffuse, MixMode::Alpha).mix(specular, MixMode::Alpha)
    }
}

/// A single-effect material contributing a constant base color.
#[derive(Clone, Copy, Debug)]
pub struct Ambient {
    pub color: ColorRGBA,
}

impl Ambient {
    /// The ambient material with the given color.
    pub fn new(color: ColorRGBA) -> (r: Ambient)
        ensures
            r.color == color,
    {
        Ambient { color }
    }

    /// What this material evaluates to at an intersection.
    pub fn render(&self, _intersection: &Intersection, _world_info: &WorldInfo) -> (c: ColorRGBA)
        ensures
            c == self.color,
    {
        self.color
    }
}

/// A single-effect material contributing the diffuse term.
#[derive(Clone, Copy, Debug)]
pub struct Diffuse {
    pub color: ColorRGBA,
}

impl Diffuse {
    /// The diffuse material with the given color.
    pub fn new(color: ColorRGBA) -> (r: Diffuse)
        ensures
            r.color == color,
    {
        Diffuse { color }
    }

    /// What this material evaluates to at an intersection.
    pub fn render(&self, intersection: &Intersection, world_info: &WorldInfo) -> (c: ColorRGBA)
        ensures
            c.channels() == diffuse_vals(self.color, *intersection, *world_info),
    {
        let light_dot_normal = world_info.lights.light_effectiveness(
            Ray::new(intersection.world_pos, intersection.world_normal),
        );
        if !Scalar::zero().lt(light_dot_normal.3) {
            ColorRGBA::blank()
        } else {
            light_dot_normal.mix(self.color, MixMode::Mul)
        }
    }
}

/// A single-effect material contributing the specular term.
#[derive(Clone, Copy, Debug)]
pub struct Specular {
    pub color: ColorRGBA,
    pub shininess: u32,
}

impl Specular {
    /// The specular material with the given color and shininess.
    pub fn new(color: ColorRGBA, shininess: u32) -> (r: Specular)
        ensures
            r.color == color,
            r.shininess == shininess,
    {
        Specular { color, shininess }
    }

    /// What this material evaluates to at an intersection.
    pub fn render(&self, intersection: &Intersection, world_info: &WorldInfo) -> (c: ColorRGBA)
        ensures
            c.channels() == specular_vals(
                self.color,
                self.shininess as nat,
                *intersection,
                *world_info,
            ),
    {
        let reflectv = Ray::new(
            intersection.world_pos,
            intersection.ray.direction.reflect_across(intersection.world_normal),
        );
        let reflect_dot_light = world_info.lights.light_effectiveness_exp(
            reflectv,
            self.shininess,
        );
        if !Scalar::zero().lt(reflect_dot_light.3) {
            ColorRGBA::blank()
        } else {
            reflect_dot_light.mix(self.color, MixMode::Mul)
        }
    }
}

/// A procedural pattern material alternating two colors in a checkerboard.
#[derive(Clone, Copy, Debug)]
pub struct CheckerBoard {
    pub color1: ColorRGBA,
    pub color2: ColorRGBA,
}

impl CheckerBoard {
    /// The checkerboard alternating the two given colors.
    pub fn new(color1: ColorRGBA, color2: ColorRGBA) -> (r: CheckerBoard)
        ensures
            r.color1 == color1,
            r.color2 == color2,
    {
        CheckerBoard { color1, color2 }
    }

    /// What this material evaluates to at an intersection.
    pub fn render(&self, intersection: &Intersection, _world_info: &WorldInfo) -> (c: ColorRGBA)
        ensures
            c.channels() == checkerboard_vals(*self, *intersection),
    {
        let four = Scalar::from_whole(4);
        let x = intersection.world_pos.0.0.mul(four).to_whole();
        let y = intersection.world_pos.0.1.mul(four).to_whole();
        let z = intersection.world_pos.0.2.mul(four).to_whole();
        let sum: i128 = x as i128 + y as i128 + z as i128;
        let mag: u128 = if sum < 0 {
            (-sum) as u128
        } else {
            sum as u128
        };
        if mag % 2 == 0 {
            self.color1
        } else {
            self.color2
        }
    }
}

/// An ordered composition of materials, folded over alpha compositing from
/// an opaque magenta seed that marks a missing base layer.
#[derive(Debug)]
pub struct MaterialStack {
    pub materials: Vec<Material>,
}

/// A combinator folding materials over channel-wise products from a white
/// seed.
#[derive(Debug)]
pub struct Multiply {
    pub materials: Vec<Material>,
}

/// A shading function of any of the closed set of kinds.
#[derive(Debug)]
pub enum Material {
    Phong(Phong),
    Ambient(Ambient),
    Diffuse(Diffuse),
    Specular(Specular),
    CheckerBoard(CheckerBoard),
    Stack(MaterialStack),
    Multiply(Multiply),
}

impl MaterialStack {
    /// The stack of the given materials, bottom layer first.
    pub fn new(materials: Vec<Material>) -> (r: MaterialStack)
        ensures
            r.materials == materials,
    {
        MaterialStack { materials }
    }

    /// What this material evaluates to at an intersection.
    pub fn render(&self, intersection: &Intersection, world_info: &WorldInfo) -> (c: ColorRGBA)
        ensures
            c.channels() == fold_mats(
                self.materials@,
                *intersection,
                *world_info,
                (SCALE as int, 0, SCALE as int, SCALE as int),
                MixMode::Alpha,
            ),
    {
        let one = Scalar::one();
        let seed = ColorRGBA(one, Scalar::zero(), one, one);
        render_list(&self.materials, intersection, world_info, seed, MixMode::Alpha)
    }
}

impl Multiply {
    /// The combinator of the given materials.
    pub fn new(materials: Vec<Material>) -> (r: Multiply)
        ensures
            r.materials == materials,
    {
        Multiply { materials }
    }

    /// What this material evaluates to at an intersection.
    pub fn render(&self, intersection: &Intersection, world_info: &WorldInfo) -> (c: ColorRGBA)
        ensures
            c.channels() == fold_mats(
                self.materials@,
                *intersection,
                *world_info,
                (SCALE as int, SCALE as int, SCALE as int, SCALE as int),
                MixMode::Mul,
            ),
    {
        let one = Scalar::one();
        let seed = ColorRGBA(one, one, one, one);
        render_list(&self.materials, intersection, world_info, seed, MixMode::Mul)
    }
}

/// A list of materials folded left to right over a mix mode.
fn render_list(
    materials: &Vec<Material>,
    intersection: &Intersection,
    world_info: &WorldInfo,
    seed: ColorRGBA,
    mode: MixMode,
) -> (c: ColorRGBA)
    ensures
        c.channels() == fold_mats(materials@, *intersection, *world_info, seed.channels(), mode),
    decreases materials@,
{
    let mut acc = seed;
    let mut idx: usize = 0;
    while idx < materials.len()
        invariant
            idx <= materials.len(),
            acc.channels() == fold_mats(
                materials@.subrange(0, idx as int),
                *intersection,
                *world_info,
                seed.channels(),
                mode,
            ),
        decreases materials@, 0nat, materials.len() - idx,
    {
        proof {
            assert(decreases_to!(materials@ => materials@[idx as int]));
        }
        let rendered = materials[idx].render(intersection, world_info);
        acc = acc.mix(rendered, mode);
        idx = idx + 1;
        proof {
            let pre = materials@.subrange(0, idx as int - 1);
            let cur = materials@.subrange(0, idx as int);
            assert(cur.drop_last() =~= pre);
            assert(cur.last() == materials@[idx as int - 1]);
        }
    }
    proof {
        assert(materials@.subrange(0, materials@.len() as int) =~= materials@);
    }
    acc
}

impl Material {
    /// What this material evaluates to at an intersection, given the world.
    pub fn render(&self, intersection: &Intersection, world_info: &WorldInfo) -> (c: ColorRGBA)
        ensures
            c.channels() == render_spec(*self, *intersection, *world_info),
        decreases *self,
    {
        match self {
            Material::Phong(p) => p.render(intersection, world_info),
            Material::Ambient(a) => a.render(intersection, world_info),
            Material::Diffuse(d) => d.render(intersection, world_info),
            Material::Specular(s) => s.render(intersection, world_info),
            Material::CheckerBoard(c) => c.render(intersection, world_info),
            Material::Stack(stack) => {
                let one = Scalar::one();
                let seed = ColorRGBA(one, Scalar::zero(), one, one);
                render_list(&stack.materials, intersection, world_info, seed, MixMode::Alpha)
            },
            Material::Multiply(mult) => {
                let one = Scalar::one();
                let seed = ColorRGBA(one, one, one, one);
                render_list(&mult.materials, intersection, world_info, seed, MixMode::Mul)
            },
        }
    }
}

/// The modular equivalent of the monolithic shading model: an ambient, a
/// diffuse, and a specular layer stacked in that order.
pub fn phong(
    ambient: ColorRGBA,
    diffuse: ColorRGBA,
    specular: ColorRGBA,
    shininess: u32,
) -> (r: MaterialStack)
    ensures
        r.materials@ =~= seq![
            Material::Ambient(Ambient { color: ambient }),
            Material::Diffuse(Diffuse { color: diffuse }),
            Material::Specular(Specular { color: specular, shininess }),
        ],
{
    let mut materials: Vec<Material> = Vec::new();
    materials.push(Material::Ambient(Ambient::new(ambient)));
    materials.push(Material::Diffuse(Diffuse::new(diffuse)));
    materials.push(Material::Specular(Specular::new(specular, shininess)));
    MaterialStack::new(materials)
}

} // verus!
