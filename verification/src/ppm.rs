//! Portable-pixmap encodings of a canvas: the text form and the binary
//! arbitrary-map form.
use vstd::prelude::*;

use crate::canvas::Canvas;
use crate::color::{byte_of, ColorRGBA};
use crate::image_formats::Image;

verus! {

/// The decimal digits of a number, most significant first.
pub open spec fn dec_digits(n: nat) -> Seq<u8>
    decreases n,
{
    if n < 10 {
        seq![(48 + n) as u8]
    } else {
        dec_digits(n / 10).push((48 + n % 10) as u8)
    }
}

/// The decimal digits of a number, as bytes.
fn dec_bytes(n: u64) -> (v: Vec<u8>)
    ensures
        v@ == dec_digits(n as nat),
    decreases n,
{
    if n < 10 {
        let mut v: Vec<u8> = Vec::new();
        v.push(48 + n as u8);
        v
    } else {
        let mut v = dec_bytes(n / 10);
        v.push(48 + (n % 10) as u8);
        v
    }
}

/// A channel value quantized to its byte, as a count.
pub open spec fn byte_nat(c: int) -> nat {
    byte_of(c) as nat
}

/// The header of the text form: the magic number, the extent, and the
/// largest channel value, each line ended by a newline.
pub open spec fn p3_header(width: nat, height: nat, max_color: nat) -> Seq<u8> {
    seq![80u8, 51u8, 10u8] + dec_digits(width) + seq![32u8] + dec_digits(height) + seq![10u8]
        + dec_digits(max_color) + seq![10u8]
}

/// One pixel of the text form: the three color channels in decimal,
/// space-separated, newline-ended.
pub open spec fn p3_line(c: ColorRGBA) -> Seq<u8> {
    dec_digits(byte_nat(c.r())) + seq![32u8] + dec_digits(byte_nat(c.g())) + seq![32u8]
        + dec_digits(byte_nat(c.b())) + seq![10u8]
}

/// The pixel lines of the text form, in buffer order.
pub open spec fn p3_pixels(s: Seq<ColorRGBA>) -> Seq<u8>
    decreases s.len(),
{
    if s.len() == 0 {
        Seq::empty()
    } else {
        p3_pixels(s.drop_last()) + p3_line(s.last())
    }
}

/// The four quantized bytes of one pixel of the binary form.
pub open spec fn p7_pixel(c: ColorRGBA) -> Seq<u8> {
    seq![
        byte_of(c.r()) as u8,
        byte_of(c.g()) as u8,
        byte_of(c.b()) as u8,
        byte_of(c.alpha()) as u8,
    ]
}

/// The pixel bytes of the binary form, in buffer order.
pub open spec fn p7_pixels(s: Seq<ColorRGBA>) -> Seq<u8>
    decreases s.len(),
{
    if s.len() == 0 {
        Seq::empty()
    } else {
        p7_pixels(s.drop_last()) + p7_pixel(s.last())
    }
}

/// The header of the binary form: the magic number and one line per
/// attribute, closed by the end marker.
pub open spec fn p7_header(width: nat, height: nat, depth: nat, max_color: nat) -> Seq<u8> {
    seq![80u8, 55u8, 10u8]  // P7
     + seq![87u8, 73u8, 68u8, 84u8, 72u8, 32u8] + dec_digits(width) + seq![10u8]  // WIDTH
     + seq![72u8, 69u8, 73u8, 71u8, 72u8, 84u8, 32u8] + dec_digits(height) + seq![10u8]  // HEIGHT
     + seq![68u8, 69u8, 80u8, 84u8, 72u8, 32u8] + dec_digits(depth) + seq![10u8]  // DEPTH
     + seq![77u8, 65u8, 88u8, 86u8, 65u8, 76u8, 32u8] + dec_digits(max_color) + seq![10u8]  // MAXVAL
     + seq![84u8, 85u8, 80u8, 76u8, 84u8, 89u8, 80u8, 69u8, 32u8]  // TUPLTYPE
     + seq![82u8, 71u8, 66u8, 95u8, 65u8, 76u8, 80u8, 72u8, 65u8, 10u8]  // RGB_ALPHA
     + seq![69u8, 78u8, 68u8, 72u8, 68u8, 82u8, 10u8]  // ENDHDR
}

/// The text portable-pixmap view of a canvas.
pub struct PPMP3Image<'a> {
    pub canvas: &'a Canvas,
    pub max_color: u8,
}

impl<'a> PPMP3Image<'a> {
    /// The text view of a canvas, with the full channel range.
    pub fn new(canvas: &'a Canvas) -> (r: PPMP3Image<'a>)
        ensures
            r.canvas == canvas,
            r.max_color == 255u8,
    {
        PPMP3Image { canvas, max_color: 255 }
    }
}

impl<'a> Image for PPMP3Image<'a> {
    open spec fn spec_header(&self) -> Seq<u8> {
        p3_header(self.canvas.width as nat, self.canvas.height as nat, self.max_color as nat)
    }

    open spec fn spec_bytes(&self) -> Seq<u8> {
        self.spec_header() + p3_pixels(self.canvas.pixels@)
    }

    fn as_bytes_header(&self) -> (r: Vec<u8>) {
        let mut bytes: Vec<u8> = Vec::new();
        bytes.push(80);
        bytes.push(51);
        bytes.push(10);
        let mut w = dec_bytes(self.canvas.width as u64);
        bytes.append(&mut w);
        bytes.push(32);
        let mut h = dec_bytes(self.canvas.height as u64);
        bytes.append(&mut h);
        bytes.push(10);
        let mut m = dec_bytes(self.max_color as u64);
        bytes.append(&mut m);
        bytes.push(10);
        proof {
            assert(bytes@ =~= self.spec_header());
        }
        bytes
    }

    #[verifier::rlimit(100)]
    fn as_bytes(&self) -> (r: Vec<u8>) {
        let mut bytes = self.as_bytes_header();
        let pixels: &Vec<ColorRGBA> = &self.canvas.pixels;
        let mut i: usize = 0;
        while i < pixels.len()
            invariant
                i <= pixels@.len(),
                pixels@ == self.canvas.pixels@,
                bytes@ == self.spec_header() + p3_pixels(pixels@.subrange(0, i as int)),
            decreases pixels@.len() - i,
        {
            let p = pixels[i];
            let mut r = dec_bytes(channel_byte_u64(p.0));
            bytes.append(&mut r);
            bytes.push(32);
            let mut g = dec_bytes(channel_byte_u64(p.1));
            bytes.append(&mut g);
            bytes.push(32);
            let mut b = dec_bytes(channel_byte_u64(p.2));
            bytes.append(&mut b);
            bytes.push(10);
            i = i + 1;
            proof {
                let pre = pixels@.subrange(0, i as int - 1);
                let cur = pixels@.subrange(0, i as int);
                assert(cur.drop_last() =~= pre);
                assert(cur.last() == pixels@[i as int - 1]);
                assert(bytes@ =~= self.spec_header() + p3_pixels(cur));
            }
        }
        proof {
            assert(pixels@.subrange(0, pixels@.len() as int) =~= pixels@);
        }
        bytes
    }
}

/// A channel quantized to its byte, widened for decimal printing.
fn channel_byte_u64(c: crate::scalar::Scalar) -> (r: u64)
    ensures
        r as nat == byte_nat(c@),
{
    let v: Vec<u8> = ColorRGBA(c, c, c, c).as_bytes();
    v[0] as u64
}

/// The binary portable-arbitrary-map view of a canvas.
pub struct PPMP7Image<'a> {
    pub canvas: &'a Canvas,
    pub max_color: u8,
    pub depth: u8,
}

impl<'a> PPMP7Image<'a> {
    /// The binary view of a canvas: four channels, full range each.
    pub fn new(canvas: &'a Canvas) -> (r: PPMP7Image<'a>)
        ensures
            r.canvas == canvas,
            r.max_color == 255u8,
            r.depth == 4u8,
    {
        PPMP7Image { canvas, max_color: 255, depth: 4 }
    }
}

impl<'a> Image for PPMP7Image<'a> {
    open spec fn spec_header(&self) -> Seq<u8> {
        p7_header(
            self.canvas.width as nat,
            self.canvas.height as nat,
            self.depth as nat,
            self.max_color as nat,
        )
    }

    open spec fn spec_bytes(&self) -> Seq<u8> {
        self.spec_header() + p7_pixels(self.canvas.pixels@)
    }

    #[verifier::rlimit(100)]
    fn as_bytes_header(&self) -> (r: Vec<u8>) {
        let mut bytes: Vec<u8> = Vec::new();
        bytes.push(80);
        bytes.push(55);
        bytes.push(10);
        bytes.push(87);
        bytes.push(73);
        bytes.push(68);
        bytes.push(84);
        bytes.push(72);
        bytes.push(32);
        let mut w = dec_bytes(self.canvas.width as u64);
        bytes.append(&mut w);
        bytes.push(10);
        bytes.push(72);
        bytes.push(69);
        bytes.push(73);
        bytes.push(71);
        bytes.push(72);
        bytes.push(84);
        bytes.push(32);
        let mut h = dec_bytes(self.canvas.height as u64);
        bytes.append(&mut h);
        bytes.push(10);
        bytes.push(68);
        bytes.push(69);
        bytes.push(80);
        bytes.push(84);
        bytes.push(72);
        bytes.push(32);
        let mut d = dec_bytes(self.depth as u64);
        bytes.append(&mut d);
        bytes.push(10);
        bytes.push(77);
        bytes.push(65);
        bytes.push(88);
        bytes.push(86);
        bytes.push(65);
        bytes.push(76);
        bytes.push(32);
        let mut m = dec_bytes(self.max_color as u64);
        bytes.append(&mut m);
        bytes.push(10);
        bytes.push(84);
        bytes.push(85);
        bytes.push(80);
        bytes.push(76);
        bytes.push(84);
        bytes.push(89);
        bytes.push(80);
        bytes.push(69);
        bytes.push(32);
        bytes.push(82);
        bytes.push(71);
        bytes.push(66);
        bytes.push(95);
        bytes.push(65);
        bytes.push(76);
        bytes.push(80);
        bytes.push(72);
        bytes.push(65);
        bytes.push(10);
        bytes.push(69);
        bytes.push(78);
        bytes.push(68);
        bytes.push(72);
        bytes.push(68);
        bytes.push(82);
        bytes.push(10);
        proof {
            assert(bytes@ =~= self.spec_header());
        }
        bytes
    }

    #[verifier::rlimit(100)]
    fn as_bytes(&self) -> (r: Vec<u8>) {
        let mut bytes = self.as_bytes_header();
        let pixels: &Vec<ColorRGBA> = &self.canvas.pixels;
        let mut i: usize = 0;
        while i < pixels.len()
            invariant
                i <= pixels@.len(),
                pixels@ == self.canvas.pixels@,
                bytes@ == self.spec_header() + p7_pixels(pixels@.subrange(0, i as int)),
            decreases pixels@.len() - i,
        {
            let mut quad = pixels[i].as_bytes();
            bytes.append(&mut quad);
            i = i + 1;
            proof {
                let pre = pixels@.subrange(0, i as int - 1);
                let cur = pixels@.subrange(0, i as int);
                assert(cur.drop_last() =~= pre);
                assert(cur.last() == pixels@[i as int - 1]);
                assert(bytes@ =~= self.spec_header() + p7_pixels(cur));
            }
        }
        proof {
            assert(pixels@.subrange(0, pixels@.len() as int) =~= pixels@);
        }
        bytes
    }
}

} // verus!
