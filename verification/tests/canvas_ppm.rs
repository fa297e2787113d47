use raytracer::canvas::Canvas;
use raytracer::color::ColorRGBA;
use raytracer::fuzzy_comparison::FuzzyPartialEq;
use raytracer::image_formats::Image;
use raytracer::ppm::{PPMP3Image, PPMP7Image};
use raytracer::scalar::Scalar;

fn sc(x: f64) -> Scalar {
    Scalar::from_units((x * 1_000_000.0).round() as i64)
}

fn rgba(r: f64, g: f64, b: f64, a: f64) -> ColorRGBA {
    ColorRGBA::new(sc(r), sc(g), sc(b), sc(a))
}

#[test]
fn create_a_canvas_and_check_empty_initialized() {
    let canvas = Canvas::new(10, 20);
    assert_eq!(canvas.width, 10);
    assert_eq!(canvas.height, 20);
    for y in 0..canvas.height {
        for x in 0..canvas.width {
            assert!(canvas.color_at(x, y).fuzzy_eq(ColorRGBA::blank()));
        }
    }
}

#[test]
fn set_a_color_and_check_it_is_set() {
    let mut canvas = Canvas::new(10, 20);
    canvas.set_color_at(2, 3, rgba(1.0, 0.0, 0.0, 1.0));
    assert!(canvas.color_at(2, 3).fuzzy_eq(rgba(1.0, 0.0, 0.0, 1.0)));
}

#[test]
fn constructing_ppm_header() {
    let c = Canvas::new(5, 3);
    let ppm = PPMP3Image::new(&c);
    let expected_header = String::from("P3\n5 3\n255\n").into_bytes();
    assert_eq!(ppm.as_bytes_header(), expected_header);
}

#[test]
fn constructing_pam_header() {
    let c = Canvas::new(5, 3);
    let ppm = PPMP7Image::new(&c);
    let expected_header = String::from(
        "P7\nWIDTH 5\nHEIGHT 3\nDEPTH 4\nMAXVAL 255\nTUPLTYPE RGB_ALPHA\nENDHDR\n",
    )
    .into_bytes();
    assert_eq!(ppm.as_bytes_header(), expected_header);
}

#[test]
fn constructing_ppm_image() {
    let c = Canvas::new(5, 3);
    let ppm = PPMP3Image::new(&c);
    let mut expected = String::from("P3\n5 3\n255\n");
    for _ in 0..15 {
        expected.push_str("0 0 0\n");
    }
    assert_eq!(ppm.as_bytes(), expected.into_bytes());
}

#[test]
fn constructing_pam_image() {
    let c = Canvas::new(5, 3);
    let ppm = PPMP7Image::new(&c);
    let expected_header = String::from(
        "P7\nWIDTH 5\nHEIGHT 3\nDEPTH 4\nMAXVAL 255\nTUPLTYPE RGB_ALPHA\nENDHDR\n",
    )
    .into_bytes();
    let expected_data = vec![0u8; 60];
    let expected: Vec<u8> = expected_header.into_iter().chain(expected_data).collect();
    assert_eq!(ppm.as_bytes(), expected);
}
