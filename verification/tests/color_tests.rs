use raytracer::color::{Color, ColorHSLA, ColorRGBA, MixMode};
use raytracer::fuzzy_comparison::FuzzyPartialEq;
use raytracer::scalar::Scalar;
use raytracer::vector::Vector;

fn sc(x: f64) -> Scalar {
    Scalar::from_units((x * 1_000_000.0).round() as i64)
}

fn rgba(r: f64, g: f64, b: f64, a: f64) -> ColorRGBA {
    ColorRGBA::new(sc(r), sc(g), sc(b), sc(a))
}

fn hsla(h: f64, s: f64, l: f64, a: f64) -> ColorHSLA {
    ColorHSLA::new(sc(h), sc(s), sc(l), sc(a))
}

#[test]
fn color_test_color_new() {
    let c = rgba(1.0, 0.2, 0.4, 1.0);
    assert!(c.fuzzy_eq(ColorRGBA(sc(1.0), sc(0.2), sc(0.4), sc(1.0))));
}

#[test]
fn primitives_test_color_new() {
    let c = Color::new(sc(1.0), sc(0.2), sc(0.4));
    let Color(r, g, b) = c;
    assert!(r.fuzzy_eq(sc(1.0)));
    assert!(g.fuzzy_eq(sc(0.2)));
    assert!(b.fuzzy_eq(sc(0.4)));
}

#[test]
fn can_add_color_and_color() {
    let c1 = rgba(1.0, 0.2, 0.4, 1.0);
    let c2 = rgba(0.1, 0.1, 0.1, 1.0);
    assert!(c1.add(c2).fuzzy_eq(rgba(1.1, 0.3, 0.5, 1.0)));
}

#[test]
fn can_sub_color_and_color() {
    let c1 = rgba(1.0, 0.2, 0.4, 1.0);
    let c2 = rgba(0.1, 0.1, 0.1, 1.0);
    assert!(c1.sub(c2).fuzzy_eq(rgba(0.9, 0.1, 0.3, 1.0)));
}

#[test]
fn can_mul_color_and_f64() {
    let c1 = rgba(1.0, 0.2, 0.4, 1.0);
    assert!(c1.mul_all(sc(0.5)).fuzzy_eq(rgba(0.5, 0.1, 0.2, 1.0)));
}

#[test]
fn can_div_color_and_f64() {
    let c1 = rgba(1.0, 0.2, 0.4, 1.0);
    assert!(c1.div_all(sc(0.5)).fuzzy_eq(rgba(2.0, 0.4, 0.8, 1.0)));
}

#[test]
fn can_invert_color() {
    let c1 = rgba(1.0, 0.2, 0.4, 1.0);
    assert!(c1.invert().fuzzy_eq(rgba(0.0, 0.8, 0.6, 1.0)));
}

#[test]
fn can_convert_rgba_to_hsla() {
    let c1 = rgba(1.0, 1.0, 0.0, 1.0);
    let c2 = ColorHSLA::from_rgba(c1);
    assert!(c2.fuzzy_eq(hsla(1.0 / 6.0, 1.0, 0.5, 1.0)));
}

#[test]
fn can_convert_hsla_to_rgba() {
    let c1 = hsla(1.0 / 6.0, 1.0, 0.5, 1.0);
    let c2 = ColorRGBA::from_hsla(c1);
    assert!(c2.fuzzy_eq(rgba(1.0, 1.0, 0.0, 1.0)));
}

#[test]
fn can_mix_colors_avg() {
    let c1 = rgba(1.0, 0.2, 0.4, 1.0);
    let c2 = rgba(0.1, 0.1, 0.1, 1.0);
    assert!(c1.mix(c2, MixMode::Avg).fuzzy_eq(rgba(0.55, 0.15, 0.25, 1.0)));
}

#[test]
fn can_mix_colors_alpha() {
    let c1 = rgba(1.0, 0.0, 0.0, 1.0);
    let c2 = rgba(0.0, 1.0, 0.0, 0.5);
    assert!(c1.mix(c2, MixMode::Alpha).fuzzy_eq(rgba(0.5, 0.5, 0.0, 1.0)));
}

#[test]
fn can_mix_colors_add() {
    let c1 = rgba(1.0, 0.2, 0.4, 1.0);
    let c2 = rgba(0.1, 0.1, 0.1, 1.0);
    assert!(c1.mix(c2, MixMode::Add).fuzzy_eq(rgba(1.1, 0.3, 0.5, 1.0)));
}

#[test]
fn can_mix_colors_sub() {
    let c1 = rgba(1.0, 0.2, 0.4, 1.0);
    let c2 = rgba(0.1, 0.1, 0.1, 1.0);
    assert!(c1.mix(c2, MixMode::Sub).fuzzy_eq(rgba(0.9, 0.1, 0.3, 1.0)));
}

#[test]
fn can_mix_colors_mul() {
    let c1 = rgba(1.0, 0.2, 0.4, 1.0);
    let c2 = rgba(0.1, 0.1, 0.1, 1.0);
    assert!(c1.mix(c2, MixMode::Mul).fuzzy_eq(rgba(0.1, 0.02, 0.04, 1.0)));
}

#[test]
fn can_mix_colors_div() {
    let c1 = rgba(1.0, 0.2, 0.4, 1.0);
    let c2 = rgba(0.1, 0.1, 0.1, 1.0);
    assert!(c1.mix(c2, MixMode::Div).fuzzy_eq(rgba(10.0, 2.0, 4.0, 1.0)));
}

#[test]
fn can_mix_colors_min() {
    let c1 = rgba(1.0, 0.0, 0.4, 1.0);
    let c2 = rgba(0.1, 0.1, 0.1, 1.0);
    assert!(c1.mix(c2, MixMode::Min).fuzzy_eq(rgba(0.1, 0.0, 0.1, 1.0)));
}

#[test]
fn can_mix_colors_max() {
    let c1 = rgba(1.0, 0.0, 0.4, 1.0);
    let c2 = rgba(0.1, 0.1, 0.1, 1.0);
    assert!(c1.mix(c2, MixMode::Max).fuzzy_eq(rgba(1.0, 0.1, 0.4, 1.0)));
}

#[test]
fn can_mix_colors_min_all() {
    let c1 = rgba(1.0, 0.0, 0.4, 1.0);
    let c2 = rgba(0.1, 0.1, 0.1, 1.0);
    assert!(c1.mix(c2, MixMode::MinAll).fuzzy_eq(rgba(0.1, 0.1, 0.1, 1.0)));
}

#[test]
fn can_mix_colors_max_all() {
    let c1 = rgba(1.0, 0.0, 0.4, 1.0);
    let c2 = rgba(0.1, 0.1, 0.1, 1.0);
    assert!(c1.mix(c2, MixMode::MaxAll).fuzzy_eq(rgba(1.0, 0.0, 0.4, 1.0)));
}

#[test]
fn mixing_with_fully_transparent_keeps_opaque_base() {
    let base = rgba(0.3, 0.7, 0.9, 1.0);
    let clear = rgba(0.8, 0.1, 0.2, 0.0);
    let mixed = base.mix(clear, MixMode::Alpha);
    assert_eq!(mixed.0.units(), base.0.units());
    assert_eq!(mixed.1.units(), base.1.units());
    assert_eq!(mixed.2.units(), base.2.units());
    assert_eq!(mixed.3.units(), base.3.units());
}

#[test]
fn mixing_with_fully_transparent_keeps_translucent_base() {
    // The premultiplied numerator is formed at full precision before the
    // single division, so even a nearly weightless base survives exactly.
    let base = rgba(0.999999, 0.0, 0.0, 0.000003);
    let clear = rgba(0.8, 0.1, 0.2, 0.0);
    let mixed = base.mix(clear, MixMode::Alpha);
    assert_eq!(mixed.0.units(), base.0.units());
    assert_eq!(mixed.1.units(), base.1.units());
    assert_eq!(mixed.2.units(), base.2.units());
    assert_eq!(mixed.3.units(), base.3.units());
}

#[test]
fn mixing_with_fully_transparent_keeps_a_summed_weight_base() {
    // A base whose alpha is a summed weight above one, as the light
    // aggregate produces, also survives unchanged — weight included.
    let base = rgba(0.3, 0.7, 0.9, 2.0);
    let clear = rgba(0.8, 0.1, 0.2, 0.0);
    let mixed = base.mix(clear, MixMode::Alpha);
    assert_eq!(mixed.0.units(), base.0.units());
    assert_eq!(mixed.1.units(), base.1.units());
    assert_eq!(mixed.2.units(), base.2.units());
    assert_eq!(mixed.3.units(), base.3.units());
}

#[test]
fn compositing_uses_summed_weights_unclamped() {
    // Compositing a layer of weight two over an opaque base follows the
    // over-formula on the weights as they are: the combined weight is
    // 2 + 1*(1-2) = 1 and each channel is (2*top - base) / 1.
    let base = rgba(0.1, 0.1, 0.1, 1.0);
    let layer = rgba(0.4, 0.4, 0.4, 2.0);
    let mixed = base.mix(layer, MixMode::Alpha);
    assert!(mixed.fuzzy_eq(rgba(0.7, 0.7, 0.7, 1.0)));
}

#[test]
fn normalizing_a_short_vector_is_exact_on_its_axis() {
    let v = Vector::new(sc(0.0011), sc(0.0), sc(0.0));
    assert!(v.magnitude().fuzzy_eq(sc(0.0011)));
    let n = v.normalize();
    assert_eq!(n.0.0.units(), 1_000_000);
    assert_eq!(n.0.1.units(), 0);
    assert_eq!(n.0.2.units(), 0);
}

#[test]
fn dividing_zero_by_zero_yields_zero() {
    let c1 = rgba(0.0, 0.5, 1.0, 1.0);
    let c2 = rgba(0.0, 0.0, 2.0, 1.0);
    let mixed = c1.mix(c2, MixMode::Div);
    assert_eq!(mixed.0.units(), 0);
    assert_eq!(mixed.1.units(), 0);
    assert!(mixed.2.fuzzy_eq(sc(0.5)));
}

#[test]
fn quantizes_channels_to_bytes() {
    let c = rgba(0.0, 1.0, 0.5, 2.0);
    let bytes = c.as_bytes();
    assert_eq!(bytes, vec![0u8, 255u8, 127u8, 255u8]);
}
