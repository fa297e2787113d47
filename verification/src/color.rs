//! Colors and the modes for mixing them.
//!
//! A color is four scalars: red, green, blue, and alpha, each conceptually in
//! the unit interval though intermediate results may leave it. Mixing is
//! defined per mode; the modes that divide define division by zero as zero,
//! so every mix is total.
use vstd::prelude::*;

use crate::fuzzy_comparison::FuzzyPartialEq;
use crate::scalar::{
    fx_add, fx_div, fx_fract, fx_fuzzy_eq, fx_max, fx_min, fx_mul, fx_powi, fx_sub, iabs, sat,
    tdiv, Scalar, MAX_UNITS, SCALE,
};

verus! {

/// How two colors are combined.
#[derive(Clone, Copy, Debug, PartialEq, Eq, Structural)]
pub enum MixMode {
    /// The component-wise mean.
    Avg,
    /// Standard "over" compositing weighted by the alpha channels as they
    /// are; the summed weights a light aggregate produces pass through
    /// unclamped.
    Alpha,
    /// Component-wise sum of the color channels; the base alpha is kept.
    Add,
    /// Component-wise difference of the color channels; the base alpha is
    /// kept.
    Sub,
    /// Component-wise product.
    Mul,
    /// Component-wise quotient; division by zero yields zero.
    Div,
    /// Component-wise minimum.
    Min,
    /// Component-wise maximum.
    Max,
    /// The whole color whose brightest channel is lower.
    MinAll,
    /// The whole color whose brightest channel is higher.
    MaxAll,
}

/// A color in red, green, blue, alpha form.
#[derive(Clone, Copy, Debug)]
pub struct ColorRGBA(pub Scalar, pub Scalar, pub Scalar, pub Scalar);

/// A color in hue, saturation, lightness, alpha form.
#[derive(Clone, Copy, Debug)]
pub struct ColorHSLA(pub Scalar, pub Scalar, pub Scalar, pub Scalar);

/// The brightest of the three channels of a color.
pub open spec fn lightness_vals(c: (int, int, int, int)) -> int {
    fx_max(fx_max(c.0, c.1), c.2)
}

/// The brightest of the three color channels.
pub open spec fn lightness_spec(c: ColorRGBA) -> int {
    lightness_vals(c.channels())
}

/// Saturation of a wide intermediate into the wide word. The bound lies at
/// two to the one-hundred-twenty-fifth power of a unit — astronomically far
/// past any transient channel excursion — so it never bites for a value a
/// scene can carry; it only keeps the fixed-width arithmetic total.
pub open spec fn wide_sat(x: int) -> int {
    if x > 0x2000_0000_0000_0000_0000_0000_0000_0000 {
        0x2000_0000_0000_0000_0000_0000_0000_0000
    } else if x < -0x2000_0000_0000_0000_0000_0000_0000_0000 {
        -0x2000_0000_0000_0000_0000_0000_0000_0000
    } else {
        x
    }
}

/// One channel of the "over" composite, taken on the alpha weights as they
/// are: the two premultiplied terms are formed exactly (saturating only at
/// the wide bound), summed, and divided once by the combined weight, so
/// compositing over a fully transparent layer returns the base channel
/// exactly whenever the base carries any weight — including the summed
/// weights above one that the light aggregate produces. A combined weight
/// of zero yields zero.
pub open spec fn over_channel(sc_: int, sa: int, oc: int, oa: int) -> int {
    let keep = SCALE as int - oa;
    let den = oa * SCALE as int + sa * keep;
    if den == 0 {
        0
    } else {
        sat(tdiv(wide_sat(oc * oa * SCALE as int) + wide_sat(sc_ * sa * keep), den))
    }
}

/// The combined weight of the "over" composite, on the weights as they are.
pub open spec fn over_weight(sa: int, oa: int) -> int {
    sat(tdiv(oa * SCALE as int + sa * (SCALE as int - oa), SCALE as int))
}

/// The channels of the mix of two colors under a mode, base first.
pub open spec fn mix_vals(
    s: (int, int, int, int),
    o: (int, int, int, int),
    mode: MixMode,
) -> (int, int, int, int) {
    match mode {
        MixMode::Avg => (
            fx_mul(fx_add(s.0, o.0), 500_000),
            fx_mul(fx_add(s.1, o.1), 500_000),
            fx_mul(fx_add(s.2, o.2), 500_000),
            fx_mul(fx_add(s.3, o.3), 500_000),
        ),
        MixMode::Alpha => (
            over_channel(s.0, s.3, o.0, o.3),
            over_channel(s.1, s.3, o.1, o.3),
            over_channel(s.2, s.3, o.2, o.3),
            over_weight(s.3, o.3),
        ),
        MixMode::Add => (
            fx_add(s.0, o.0),
            fx_add(s.1, o.1),
            fx_add(s.2, o.2),
            s.3,
        ),
        MixMode::Sub => (
            fx_sub(s.0, o.0),
            fx_sub(s.1, o.1),
            fx_sub(s.2, o.2),
            s.3,
        ),
        MixMode::Mul => (
            fx_mul(s.0, o.0),
            fx_mul(s.1, o.1),
            fx_mul(s.2, o.2),
            fx_mul(s.3, o.3),
        ),
        MixMode::Div => (
            fx_div(s.0, o.0),
            fx_div(s.1, o.1),
            fx_div(s.2, o.2),
            fx_div(s.3, o.3),
        ),
        MixMode::Min => (
            fx_min(s.0, o.0),
            fx_min(s.1, o.1),
            fx_min(s.2, o.2),
            fx_min(s.3, o.3),
        ),
        MixMode::Max => (
            fx_max(s.0, o.0),
            fx_max(s.1, o.1),
            fx_max(s.2, o.2),
            fx_max(s.3, o.3),
        ),
        MixMode::MinAll => {
            if lightness_vals(s) < lightness_vals(o) {
                s
            } else {
                o
            }
        },
        MixMode::MaxAll => {
            if lightness_vals(s) > lightness_vals(o) {
                s
            } else {
                o
            }
        },
    }
}

/// The channels of the mix of two colors under a mode, base first.
pub open spec fn mix_spec(s: ColorRGBA, o: ColorRGBA, mode: MixMode) -> (int, int, int, int) {
    mix_vals(s.channels(), o.channels(), mode)
}

/// The byte a channel maps to: clamped to the unit interval, then spread over
/// the byte range.
pub open spec fn byte_of(c: int) -> int {
    let clamped = if c < 0 {
        0
    } else if c > SCALE as int {
        SCALE as int
    } else {
        c
    };
    tdiv(clamped * 255, SCALE as int)
}

impl ColorRGBA {
    /// Red channel.
    pub open spec fn r(&self) -> int {
        self.0@
    }

    /// Green channel.
    pub open spec fn g(&self) -> int {
        self.1@
    }

    /// Blue channel.
    pub open spec fn b(&self) -> int {
        self.2@
    }

    /// Alpha channel.
    pub open spec fn alpha(&self) -> int {
        self.3@
    }

    /// All four channels.
    pub open spec fn channels(&self) -> (int, int, int, int) {
        (self.r(), self.g(), self.b(), self.alpha())
    }

    /// The color with the given channels.
    pub fn new(r: Scalar, g: Scalar, b: Scalar, a: Scalar) -> (c: ColorRGBA)
        ensures
            c == (ColorRGBA(r, g, b, a)),
    {
        ColorRGBA(r, g, b, a)
    }

    /// The fully transparent black.
    pub fn blank() -> (c: ColorRGBA)
        ensures
            c.r() == 0,
            c.g() == 0,
            c.b() == 0,
            c.alpha() == 0,
    {
        let z = Scalar::zero();
        ColorRGBA(z, z, z, z)
    }

    /// The color with each color channel replaced by its complement; alpha is
    /// kept.
    pub fn invert(&self) -> (c: ColorRGBA)
        ensures
            c.r() == fx_sub(SCALE as int, self.r()),
            c.g() == fx_sub(SCALE as int, self.g()),
            c.b() == fx_sub(SCALE as int, self.b()),
            c.alpha() == self.alpha(),
    {
        let one = Scalar::one();
        ColorRGBA(one.sub(self.0), one.sub(self.1), one.sub(self.2), self.3)
    }

    /// The color channels scaled by one factor; alpha is kept.
    pub fn mul_all(&self, other: Scalar) -> (c: ColorRGBA)
        ensures
            c.r() == fx_mul(self.r(), other@),
            c.g() == fx_mul(self.g(), other@),
            c.b() == fx_mul(self.b(), other@),
            c.alpha() == self.alpha(),
    {
        ColorRGBA(self.0.mul(other), self.1.mul(other), self.2.mul(other), self.3)
    }

    /// The color channels premultiplied by the alpha channel.
    pub fn intensify(&self) -> (c: ColorRGBA)
        ensures
            c.r() == fx_mul(self.r(), self.alpha()),
            c.g() == fx_mul(self.g(), self.alpha()),
            c.b() == fx_mul(self.b(), self.alpha()),
            c.alpha() == self.alpha(),
    {
        ColorRGBA(self.0.mul(self.3), self.1.mul(self.3), self.2.mul(self.3), self.3)
    }

    /// Every channel raised to a whole-number power.
    pub fn powi(&self, n: u32) -> (c: ColorRGBA)
        ensures
            c.r() == fx_powi(self.r(), n as nat),
            c.g() == fx_powi(self.g(), n as nat),
            c.b() == fx_powi(self.b(), n as nat),
            c.alpha() == fx_powi(self.alpha(), n as nat),
    {
        ColorRGBA(self.0.powi(n), self.1.powi(n), self.2.powi(n), self.3.powi(n))
    }

    /// Component-wise sum of the color channels; alpha is kept.
    pub fn add(self, rhs: ColorRGBA) -> (c: ColorRGBA)
        ensures
            c.r() == fx_add(self.r(), rhs.r()),
            c.g() == fx_add(self.g(), rhs.g()),
            c.b() == fx_add(self.b(), rhs.b()),
            c.alpha() == self.alpha(),
    {
        ColorRGBA(self.0.add(rhs.0), self.1.add(rhs.1), self.2.add(rhs.2), self.3)
    }

    /// Component-wise difference of the color channels; alpha is kept.
    pub fn sub(self, rhs: ColorRGBA) -> (c: ColorRGBA)
        ensures
            c.r() == fx_sub(self.r(), rhs.r()),
            c.g() == fx_sub(self.g(), rhs.g()),
            c.b() == fx_sub(self.b(), rhs.b()),
            c.alpha() == self.alpha(),
    {
        ColorRGBA(self.0.sub(rhs.0), self.1.sub(rhs.1), self.2.sub(rhs.2), self.3)
    }

    /// The color channels divided by one factor; alpha is kept, and division
    /// by zero yields zero.
    pub fn div_all(&self, other: Scalar) -> (c: ColorRGBA)
        ensures
            c.r() == fx_div(self.r(), other@),
            c.g() == fx_div(self.g(), other@),
            c.b() == fx_div(self.b(), other@),
            c.alpha() == self.alpha(),
    {
        ColorRGBA(self.0.div(other), self.1.div(other), self.2.div(other), self.3)
    }

    /// The brightest of the three color channels.
    fn lightness(&self) -> (r: Scalar)
        ensures
            r@ == lightness_spec(*self),
    {
        self.0.max(self.1).max(self.2)
    }

    /// The mix of this color, as the base, with another under a mode.
    pub fn mix(&self, other: ColorRGBA, mode: MixMode) -> (c: ColorRGBA)
        ensures
            c.channels() == mix_spec(*self, other, mode),
    {
        match mode {
            MixMode::Avg => {
                let half = Scalar::from_units(500_000);
                ColorRGBA(
                    self.0.add(other.0).mul(half),
                    self.1.add(other.1).mul(half),
                    self.2.add(other.2).mul(half),
                    self.3.add(other.3).mul(half),
                )
            },
            MixMode::Alpha => ColorRGBA(
                over_mix(self.0, self.3, other.0, other.3),
                over_mix(self.1, self.3, other.1, other.3),
                over_mix(self.2, self.3, other.2, other.3),
                over_mix_weight(self.3, other.3),
            ),
            MixMode::Add => ColorRGBA(
                self.0.add(other.0),
                self.1.add(other.1),
                self.2.add(other.2),
                self.3,
            ),
            MixMode::Sub => ColorRGBA(
                self.0.sub(other.0),
                self.1.sub(other.1),
                self.2.sub(other.2),
                self.3,
            ),
            MixMode::Mul => ColorRGBA(
                self.0.mul(other.0),
                self.1.mul(other.1),
                self.2.mul(other.2),
                self.3.mul(other.3),
            ),
            MixMode::Div => ColorRGBA(
                self.0.div(other.0),
                self.1.div(other.1),
                self.2.div(other.2),
                self.3.div(other.3),
            ),
            MixMode::Min => ColorRGBA(
                self.0.min(other.0),
                self.1.min(other.1),
                self.2.min(other.2),
                self.3.min(other.3),
            ),
            MixMode::Max => ColorRGBA(
                self.0.max(other.0),
                self.1.max(other.1),
                self.2.max(other.2),
                self.3.max(other.3),
            ),
            MixMode::MinAll => {
                if self.lightness().lt(other.lightness()) {
                    *self
                } else {
                    other
                }
            },
            MixMode::MaxAll => {
                if other.lightness().lt(self.lightness()) {
                    *self
                } else {
                    other
                }
            },
        }
    }

    /// The four channels quantized to bytes: red, green, blue, alpha.
    pub fn as_bytes(&self) -> (r: Vec<u8>)
        ensures
            r@.len() == 4,
            r@[0] == byte_of(self.r()),
            r@[1] == byte_of(self.g()),
            r@[2] == byte_of(self.b()),
            r@[3] == byte_of(self.alpha()),
    {
        let mut out: Vec<u8> = Vec::new();
        out.push(channel_byte(self.0));
        out.push(channel_byte(self.1));
        out.push(channel_byte(self.2));
        out.push(channel_byte(self.3));
        out
    }
}

/// A product of two unit counts stays inside the wide word.
proof fn lemma_unit_product_fits(a: int, b: int)
    by (nonlinear_arith)
    requires
        -0x8000_0000_0000_0000 <= a <= 0x8000_0000_0000_0000,
        -0x8000_0000_0000_0000 <= b <= 0x8000_0000_0000_0000,
    ensures
        -0x4000_0000_0000_0000_0000_0000_0000_0000 <= a * b
            <= 0x4000_0000_0000_0000_0000_0000_0000_0000,
{
}

/// A product of nonzero factors with matching signs is positive, with
/// mismatched signs negative.
proof fn lemma_product_sign(a: int, b: int)
    by (nonlinear_arith)
    requires
        a != 0,
        b != 0,
    ensures
        ((a < 0) == (b < 0)) == (a * b > 0),
{
}

/// The combined weight of the "over" composite stays strictly inside the
/// wide word for any stored unit counts.
proof fn lemma_over_weight_fits(sa: int, oa: int)
    by (nonlinear_arith)
    requires
        -0x8000_0000_0000_0000 <= sa <= 0x8000_0000_0000_0000,
        -0x8000_0000_0000_0000 <= oa <= 0x8000_0000_0000_0000,
    ensures
        -0x1_0000_0000_0000_0000_0000_0000 <= oa * 1_000_000 <= 0x1_0000_0000_0000_0000_0000_0000,
        -0x4100_0000_0000_0000_0000_0000_0000_0000 <= sa * (1_000_000 - oa)
            <= 0x4100_0000_0000_0000_0000_0000_0000_0000,
        -0x7fff_ffff_ffff_ffff_ffff_ffff_ffff_ffff <= oa * 1_000_000 + sa * (1_000_000 - oa)
            <= 0x7fff_ffff_ffff_ffff_ffff_ffff_ffff_ffff,
{
}

const WIDE_BOUND: i128 = 0x2000_0000_0000_0000_0000_0000_0000_0000;

/// A premultiplied term of the "over" composite: the product of a channel,
/// a weight, and a wide factor, saturated into the wide word.
fn wide_term(a: i64, b: i64, k: i128) -> (r: i128)
    requires
        iabs(k as int) <= 0x1_0000_0000_0000_0000,
    ensures
        r as int == wide_sat(a as int * b as int * k as int),
        -0x2000_0000_0000_0000_0000_0000_0000_0000 <= r
            <= 0x2000_0000_0000_0000_0000_0000_0000_0000,
{
    proof {
        lemma_unit_product_fits(a as int, b as int);
    }
    let m1: i128 = a as i128 * b as i128;
    if m1 == 0 || k == 0 {
        proof {
            assert(a as int * b as int * k as int == 0) by (nonlinear_arith)
                requires
                    m1 as int == a as int * b as int,
                    m1 as int == 0 || k as int == 0;
        }
        0
    } else {
        proof {
            lemma_product_sign(m1 as int, k as int);
        }
        match m1.checked_mul(k) {
            Some(v) => {
                if v > WIDE_BOUND {
                    WIDE_BOUND
                } else if v < -WIDE_BOUND {
                    -WIDE_BOUND
                } else {
                    v
                }
            },
            None => {
                if (m1 < 0) == (k < 0) {
                    WIDE_BOUND
                } else {
                    -WIDE_BOUND
                }
            },
        }
    }
}

/// One channel of the "over" composite, at full intermediate precision.
fn over_mix(sc_: Scalar, sa: Scalar, oc: Scalar, oa: Scalar) -> (r: Scalar)
    ensures
        r@ == over_channel(sc_@, sa@, oc@, oa@),
{
    let scu: i64 = sc_.units();
    let sau: i64 = sa.units();
    let ocu: i64 = oc.units();
    let oau: i64 = oa.units();
    proof {
        lemma_over_weight_fits(sau as int, oau as int);
    }
    let keep: i128 = SCALE as i128 - oau as i128;
    let den: i128 = oau as i128 * SCALE as i128 + sau as i128 * keep;
    if den == 0 {
        Scalar::zero()
    } else {
        let t1: i128 = wide_term(ocu, oau, SCALE as i128);
        let t2: i128 = wide_term(scu, sau, keep);
        crate::scalar::from_wide(crate::scalar::trunc_div(t1 + t2, den))
    }
}

/// The combined weight of the "over" composite.
fn over_mix_weight(sa: Scalar, oa: Scalar) -> (r: Scalar)
    ensures
        r@ == over_weight(sa@, oa@),
{
    let sau: i64 = sa.units();
    let oau: i64 = oa.units();
    proof {
        lemma_over_weight_fits(sau as int, oau as int);
    }
    let den: i128 = oau as i128 * SCALE as i128 + sau as i128 * (SCALE as i128 - oau as i128);
    crate::scalar::from_wide(crate::scalar::trunc_div(den, SCALE as i128))
}

/// One channel quantized to a byte.
fn channel_byte(c: Scalar) -> (r: u8)
    ensures
        r == byte_of(c@),
{
    let clamped = c.max(Scalar::zero()).min(Scalar::one());
    let u: i64 = clamped.units();
    proof {
        vstd::arithmetic::div_mod::lemma_div_is_ordered(
            u as int * 255,
            255 * SCALE as int,
            SCALE as int,
        );
        vstd::arithmetic::div_mod::lemma_div_by_multiple(255, SCALE as int);
    }
    ((u as u64) * 255 / (SCALE as u64)) as u8
}

impl FuzzyPartialEq<ColorRGBA> for ColorRGBA {
    open spec fn fuzzy_spec(self, other: ColorRGBA) -> bool {
        &&& fx_fuzzy_eq(self.r(), other.r())
        &&& fx_fuzzy_eq(self.g(), other.g())
        &&& fx_fuzzy_eq(self.b(), other.b())
        &&& fx_fuzzy_eq(self.alpha(), other.alpha())
    }

    fn fuzzy_eq(self, other: ColorRGBA) -> (r: bool) {
        self.0.fuzzy_eq_scalar(other.0) && self.1.fuzzy_eq_scalar(other.1)
            && self.2.fuzzy_eq_scalar(other.2) && self.3.fuzzy_eq_scalar(other.3)
    }
}

impl ColorHSLA {
    /// Hue, in revolutions around the color wheel.
    pub open spec fn h(&self) -> int {
        self.0@
    }

    /// Saturation.
    pub open spec fn s(&self) -> int {
        self.1@
    }

    /// Lightness.
    pub open spec fn l(&self) -> int {
        self.2@
    }

    /// Alpha channel.
    pub open spec fn alpha(&self) -> int {
        self.3@
    }

    /// All four channels.
    pub open spec fn channels(&self) -> (int, int, int, int) {
        (self.h(), self.s(), self.l(), self.alpha())
    }

    /// The color with the given channels.
    pub fn new(h: Scalar, s: Scalar, l: Scalar, a: Scalar) -> (c: ColorHSLA)
        ensures
            c == (ColorHSLA(h, s, l, a)),
    {
        ColorHSLA(h, s, l, a)
    }

    /// The color with saturation and lightness replaced by their complements;
    /// hue and alpha are kept.
    pub fn invert(&self) -> (c: ColorHSLA)
        ensures
            c.h() == self.h(),
            c.s() == fx_sub(SCALE as int, self.s()),
            c.l() == fx_sub(SCALE as int, self.l()),
            c.alpha() == self.alpha(),
    {
        let one = Scalar::one();
        ColorHSLA(self.0, one.sub(self.1), one.sub(self.2), self.3)
    }
}

impl FuzzyPartialEq<ColorHSLA> for ColorHSLA {
    open spec fn fuzzy_spec(self, other: ColorHSLA) -> bool {
        &&& fx_fuzzy_eq(self.h(), other.h())
        &&& fx_fuzzy_eq(self.s(), other.s())
        &&& fx_fuzzy_eq(self.l(), other.l())
        &&& fx_fuzzy_eq(self.alpha(), other.alpha())
    }

    fn fuzzy_eq(self, other: ColorHSLA) -> (r: bool) {
        self.0.fuzzy_eq_scalar(other.0) && self.1.fuzzy_eq_scalar(other.1)
            && self.2.fuzzy_eq_scalar(other.2) && self.3.fuzzy_eq_scalar(other.3)
    }
}

/// A hue parameter brought up into nonnegative range by whole steps.
pub open spec fn wrap_up(t: int) -> int {
    if t < 0 {
        t % (SCALE as int)
    } else {
        t
    }
}

/// A nonnegative hue parameter brought down by whole steps until it no
/// longer exceeds one.
pub open spec fn wrap_down(t: int) -> int {
    if t > SCALE as int {
        let m = t % (SCALE as int);
        if m == 0 {
            SCALE as int
        } else {
            m
        }
    } else {
        t
    }
}

/// The helper of the hue-to-channel conversion: the hue parameter is wrapped
/// into range, then the channel is interpolated between the two lightness
/// poles.
pub open spec fn hue2rgb_spec(p: int, q: int, t0: int) -> int {
    let sixth = fx_div(SCALE as int, 6 * SCALE as int);
    let half = fx_div(SCALE as int, 2 * SCALE as int);
    let two_thirds = fx_div(2 * SCALE as int, 3 * SCALE as int);
    let t = wrap_down(wrap_up(sat(t0)));
    if t < sixth {
        fx_add(p, fx_mul(fx_mul(fx_sub(q, p), 6 * SCALE as int), t))
    } else if t < half {
        q
    } else if t < two_thirds {
        fx_add(p, fx_mul(fx_mul(fx_sub(q, p), fx_sub(two_thirds, t)), 6 * SCALE as int))
    } else {
        p
    }
}

/// The channels of a color converted from hue, saturation, lightness form.
pub open spec fn hsla_to_rgba_spec(c: ColorHSLA) -> (int, int, int, int) {
    let third = fx_div(SCALE as int, 3 * SCALE as int);
    if c.s() == 0 {
        (c.l(), c.l(), c.l(), c.alpha())
    } else {
        let q = if c.l() < 500_000 {
            fx_mul(c.l(), fx_add(SCALE as int, c.s()))
        } else {
            fx_sub(fx_add(c.l(), c.s()), fx_mul(c.l(), c.s()))
        };
        let p = fx_sub(fx_mul(2 * SCALE as int, c.l()), q);
        (
            hue2rgb_spec(p, q, fx_add(c.h(), third)),
            hue2rgb_spec(p, q, c.h()),
            hue2rgb_spec(p, q, fx_sub(c.h(), third)),
            c.alpha(),
        )
    }
}

/// The channels of a color converted to hue, saturation, lightness form.
pub open spec fn rgba_to_hsla_spec(c: ColorRGBA) -> (int, int, int, int) {
    let deg60 = fx_div(SCALE as int, 6 * SCALE as int);
    let maxc = fx_max(fx_max(c.r(), c.g()), c.b());
    let minc = fx_min(fx_min(c.r(), c.g()), c.b());
    let h = if maxc == minc {
        0
    } else if maxc == c.r() {
        fx_fract(fx_add(fx_mul(deg60, fx_div(fx_sub(c.g(), c.b()), fx_sub(maxc, minc))), fx_mul(deg60, 0)))
    } else if maxc == c.g() {
        fx_fract(
            fx_add(
                fx_mul(deg60, fx_div(fx_sub(c.b(), c.r()), fx_sub(maxc, minc))),
                fx_mul(deg60, 2 * SCALE as int),
            ),
        )
    } else if maxc == c.b() {
        fx_fract(
            fx_add(
                fx_mul(deg60, fx_div(fx_sub(c.r(), c.g()), fx_sub(maxc, minc))),
                fx_mul(deg60, 4 * SCALE as int),
            ),
        )
    } else {
        0
    };
    let s = if maxc == 0 {
        0
    } else {
        fx_div(fx_sub(maxc, minc), maxc)
    };
    let l = fx_mul(fx_add(maxc, minc), 500_000);
    (h, s, l, c.alpha())
}

/// The hue-to-channel interpolation helper.
fn hue2rgb(p: Scalar, q: Scalar, t0: Scalar) -> (r: Scalar)
    ensures
        r@ == hue2rgb_spec(p@, q@, t0@),
{
    let one = Scalar::one();
    let six = Scalar::from_whole(6);
    let sixth = one.div(six);
    let half = one.div(Scalar::from_whole(2));
    let two_thirds = Scalar::from_whole(2).div(Scalar::from_whole(3));
    let mut t = Scalar::from_units(t0.units());
    let ghost t_start: int = t@;
    while t.is_neg()
        invariant
            one@ == SCALE as int,
            -(crate::scalar::MAX_UNITS as int) <= t@ <= crate::scalar::MAX_UNITS as int,
            t@ % (SCALE as int) == t_start % (SCALE as int),
            t@ >= 0 ==> t@ == wrap_up(t_start),
            t@ < 0 ==> wrap_up(t_start) == t_start % (SCALE as int),
        decreases
                (if t@ < 0 {
                    -t@
                } else {
                    0
                }),
    {
        let ghost prev: int = t@;
        proof {
            vstd::arithmetic::div_mod::lemma_mod_add_multiples_vanish(prev, SCALE as int);
        }
        t = t.add(one);
        proof {
            assert(t@ == prev + SCALE as int);
            assert(t@ % (SCALE as int) == prev % (SCALE as int));
            if t@ >= 0 {
                vstd::arithmetic::div_mod::lemma_small_mod(t@ as nat, SCALE as nat);
                assert(t@ == t@ % (SCALE as int));
                if t_start >= 0 {
                    vstd::arithmetic::div_mod::lemma_small_mod(t_start as nat, SCALE as nat);
                }
            }
        }
    }
    let ghost t_up: int = t@;
    proof {
        assert(t_up == wrap_up(t_start));
    }
    while one.lt(t)
        invariant
            one@ == SCALE as int,
            0 <= t@ <= crate::scalar::MAX_UNITS as int,
            t@ % (SCALE as int) == t_up % (SCALE as int),
            t@ <= SCALE as int ==> t@ == wrap_down(t_up),
            t@ > SCALE as int ==> t_up > SCALE as int,
        decreases t@,
    {
        let ghost prev: int = t@;
        proof {
            vstd::arithmetic::div_mod::lemma_mod_add_multiples_vanish(
                prev - SCALE as int,
                SCALE as int,
            );
        }
        t = t.sub(one);
        proof {
            assert(t@ == prev - SCALE as int);
            assert(t@ % (SCALE as int) == prev % (SCALE as int));
            if t@ <= SCALE as int {
                if t@ < SCALE as int {
                    vstd::arithmetic::div_mod::lemma_small_mod(t@ as nat, SCALE as nat);
                } else {
                    vstd::arithmetic::div_mod::lemma_mod_self_0(SCALE as int);
                }
            }
        }
    }
    if t.lt(sixth) {
        p.add(q.sub(p).mul(six).mul(t))
    } else if t.lt(half) {
        q
    } else if t.lt(two_thirds) {
        p.add(q.sub(p).mul(two_thirds.sub(t)).mul(six))
    } else {
        p
    }
}

impl ColorRGBA {
    /// The color converted from hue, saturation, lightness form.
    pub fn from_hsla(color: ColorHSLA) -> (c: ColorRGBA)
        ensures
            c.channels() == hsla_to_rgba_spec(color),
    {
        let ColorHSLA(h, s, l, a) = color;
        if s.eq_exact(Scalar::zero()) {
            ColorRGBA(l, l, l, a)
        } else {
            let one = Scalar::one();
            let third = one.div(Scalar::from_whole(3));
            let q = if l.lt(Scalar::from_units(500_000)) {
                l.mul(one.add(s))
            } else {
                l.add(s).sub(l.mul(s))
            };
            let p = Scalar::from_whole(2).mul(l).sub(q);
            ColorRGBA(
                hue2rgb(p, q, h.add(third)),
                hue2rgb(p, q, h),
                hue2rgb(p, q, h.sub(third)),
                a,
            )
        }
    }
}

impl ColorHSLA {
    /// The color converted from red, green, blue form.
    pub fn from_rgba(rgba: ColorRGBA) -> (c: ColorHSLA)
        ensures
            c.channels() == rgba_to_hsla_spec(rgba),
    {
        let r = rgba.0;
        let g = rgba.1;
        let b = rgba.2;
        let a = rgba.3;
        let maxc = r.max(g).max(b);
        let minc = r.min(g).min(b);
        let deg60 = Scalar::one().div(Scalar::from_whole(6));
        let h = if maxc.eq_exact(minc) {
            Scalar::zero()
        } else if maxc.eq_exact(r) {
            deg60.mul(g.sub(b).div(maxc.sub(minc))).add(
                deg60.mul(Scalar::from_whole(0)),
            ).fract()
        } else if maxc.eq_exact(g) {
            deg60.mul(b.sub(r).div(maxc.sub(minc))).add(
                deg60.mul(Scalar::from_whole(2)),
            ).fract()
        } else if maxc.eq_exact(b) {
            deg60.mul(r.sub(g).div(maxc.sub(minc))).add(
                deg60.mul(Scalar::from_whole(4)),
            ).fract()
        } else {
            Scalar::zero()
        };
        let s = if maxc.eq_exact(Scalar::zero()) {
            Scalar::zero()
        } else {
            maxc.sub(minc).div(maxc)
        };
        let l = maxc.add(minc).mul(Scalar::from_units(500_000));
        ColorHSLA(h, s, l, a)
    }
}

/// One channel composited over a fully transparent layer comes back
/// unchanged whenever the base carries any weight: the exact premultiplied
/// numerator divides out the weight without loss.
proof fn lemma_over_transparent_channel(c: int, sa: int, oc: int)
    requires
        0 < sa <= MAX_UNITS as int,
        -(MAX_UNITS as int) <= c <= MAX_UNITS as int,
    ensures
        over_channel(c, sa, oc, 0) == c,
{
    let d = sa * (SCALE as int);
    assert(d > 0) by (nonlinear_arith)
        requires
            0 < sa,
            d == sa * 1_000_000;
    assert(oc * 0 * (SCALE as int) == 0) by (nonlinear_arith);
    assert(c * sa * (SCALE as int) == c * d) by (nonlinear_arith)
        requires d == sa * 1_000_000;
    assert(wide_sat(c * d) == c * d) by (nonlinear_arith)
        requires
            d == sa * 1_000_000,
            0 < sa <= 4_000_000_000_000_000,
            -4_000_000_000_000_000 <= c <= 4_000_000_000_000_000;
    crate::scalar::lemma_tdiv_cancel(c, d);
}

/// Law: compositing any color that carries weight with a fully transparent
/// color over the alpha mode returns the base color unchanged, exactly —
/// for any positive base weight up to the representable bound, including
/// the summed weights above one that the light aggregate produces. (A base
/// with zero alpha has no weight at all: there the combined weight is zero
/// and the composite is defined to be blank.)
pub proof fn lemma_alpha_transparent_identity(s: ColorRGBA, o: ColorRGBA)
    requires
        o.alpha() == 0,
        0 < s.alpha() <= MAX_UNITS as int,
        -(MAX_UNITS as int) <= s.r() <= MAX_UNITS as int,
        -(MAX_UNITS as int) <= s.g() <= MAX_UNITS as int,
        -(MAX_UNITS as int) <= s.b() <= MAX_UNITS as int,
    ensures
        mix_spec(s, o, MixMode::Alpha) == s.channels(),
{
    let sa = s.alpha();
    lemma_over_transparent_channel(s.r(), sa, o.r());
    lemma_over_transparent_channel(s.g(), sa, o.g());
    lemma_over_transparent_channel(s.b(), sa, o.b());
    crate::scalar::lemma_tdiv_cancel(sa, SCALE as int);
}

/// A bare three-channel color.
#[derive(Clone, Copy, Debug)]
pub struct Color(pub Scalar, pub Scalar, pub Scalar);

impl Color {
    /// The color with the given channels.
    pub fn new(r: Scalar, g: Scalar, b: Scalar) -> (c: Color)
        ensures
            c == (Color(r, g, b)),
    {
        Color(r, g, b)
    }
}

} // verus!
