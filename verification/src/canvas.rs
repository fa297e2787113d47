//! The pixel buffer a render writes into.
use vstd::prelude::*;

use crate::color::ColorRGBA;

verus! {

/// A rectangular pixel buffer, stored row by row.
#[derive(Debug)]
pub struct Canvas {
    pub width: usize,
    pub height: usize,
    pub pixels: Vec<ColorRGBA>,
}

impl Canvas {
    /// The buffer holds one pixel per coordinate.
    pub open spec fn wf(&self) -> bool {
        self.pixels@.len() == self.width * self.height
    }

    /// A canvas of the given extent, every pixel fully transparent black.
    pub fn new(width: usize, height: usize) -> (r: Canvas)
        requires
            width * height <= usize::MAX,
        ensures
            r.width == width,
            r.height == height,
            r.wf(),
            forall|i: int|
                0 <= i < r.pixels@.len() ==> (#[trigger] r.pixels@[i]).channels() == (
                    0int,
                    0int,
                    0int,
                    0int,
                ),
    {
        let mut pixels: Vec<ColorRGBA> = Vec::new();
        let total: usize = width * height;
        let mut i: usize = 0;
        while i < total
            invariant
                i <= total,
                pixels@.len() == i,
                forall|k: int|
                    0 <= k < i ==> (#[trigger] pixels@[k]).channels() == (0int, 0int, 0int, 0int),
            decreases total - i,
        {
            pixels.push(ColorRGBA::blank());
            i = i + 1;
        }
        Canvas { width, height, pixels }
    }

    /// The pixel at a coordinate.
    pub fn color_at(&self, x: usize, y: usize) -> (c: ColorRGBA)
        requires
            self.wf(),
            x < self.width,
            y < self.height,
        ensures
            c == self.pixels@[y * self.width + x],
    {
        let buffer_len: usize = self.pixels.len();
        proof {
            assert(buffer_len == self.pixels@.len());
            lemma_row_major_index(self.width as int, self.height as int, x as int, y as int);
        }
        self.pixels[y * self.width + x]
    }

    /// Writes the pixel at a coordinate, leaving the rest unchanged.
    pub fn set_color_at(&mut self, x: usize, y: usize, color: ColorRGBA)
        requires
            old(self).wf(),
            x < old(self).width,
            y < old(self).height,
        ensures
            final(self).width == old(self).width,
            final(self).height == old(self).height,
            final(self).wf(),
            final(self).pixels@ == old(self).pixels@.update(
                y * old(self).width + x,
                color,
            ),
    {
        let buffer_len: usize = self.pixels.len();
        proof {
            assert(buffer_len == self.pixels@.len());
            lemma_row_major_index(self.width as int, self.height as int, x as int, y as int);
        }
        let idx: usize = y * self.width + x;
        self.pixels.set(idx, color);
    }
}

/// A coordinate inside the rectangle lands inside the row-major buffer.
proof fn lemma_row_major_index(width: int, height: int, x: int, y: int)
    by (nonlinear_arith)
    requires
        0 <= x < width,
        0 <= y < height,
    ensures
        0 <= y * width + x < width * height,
{
}

} // verus!
