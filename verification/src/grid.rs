//! The resampled pixel grid that the renderer walks.

use vstd::prelude::*;
use crate::pixel::Pixel;

verus! {

/// A row-major grid of pixels with known dimensions. Well-formed when the
/// backing vector holds exactly `width * height` pixels.
#[derive(Debug)]
pub struct ImageGrid {
    pub width: u32,
    pub height: u32,
    pub pixels: Vec<Pixel>,
}

impl ImageGrid {
    pub open spec fn wf(self) -> bool {
        self.pixels@.len() == (self.width as int) * (self.height as int)
    }

    /// The pixel at column `x` of row `y`.
    pub open spec fn pixel_spec(self, x: int, y: int) -> Pixel {
        self.pixels@[y * (self.width as int) + x]
    }

    /// Builds a grid from a row-major pixel vector; `None` exactly when the
    /// vector's length does not match the dimensions.
    pub fn from_pixels(width: u32, height: u32, pixels: Vec<Pixel>) -> (r: Option<ImageGrid>)
        ensures
            match r {
                Some(g) => g.wf() && g.width == width && g.height == height && g.pixels@
                    == pixels@,
                None => pixels@.len() != (width as int) * (height as int),
            },
    {
        proof {
            assert((width as int) * (height as int) <= (u32::MAX as int) * (u32::MAX as int))
                by (nonlinear_arith)
                requires
                    width <= u32::MAX,
                    height <= u32::MAX,
            ;
        }
        let want: u64 = (width as u64) * (height as u64);
        if (pixels.len() as u64) == want {
            Some(ImageGrid { width, height, pixels })
        } else {
            None
        }
    }

    pub fn grid_width(&self) -> (w: u32)
        ensures
            w == self.width,
    {
        self.width
    }

    pub fn grid_height(&self) -> (h: u32)
        ensures
            h == self.height,
    {
        self.height
    }

    pub fn pixel(&self, x: u32, y: u32) -> (p: Pixel)
        requires
            self.wf(),
            x < self.width,
            y < self.height,
        ensures
            p == self.pixel_spec(x as int, y as int),
    {
        let n: usize = self.pixels.len();
        proof {
            lemma_row_major_index_in_bounds(
                self.width as int,
                self.height as int,
                x as int,
                y as int,
            );
            assert((y as int) * (self.width as int) + (x as int) < n as int);
        }
        self.pixels[(y as usize) * (self.width as usize) + (x as usize)]
    }
}

/// A row-major index `y * width + x` of an in-bounds coordinate lies below
/// `width * height`.
pub proof fn lemma_row_major_index_in_bounds(w: int, h: int, x: int, y: int)
    requires
        0 <= x < w,
        0 <= y < h,
    ensures
        0 <= y * w + x < w * h,
{
    assert(y * w + x < w * h) by (nonlinear_arith)
        requires
            0 <= x < w,
            0 <= y < h,
    ;
    assert(0 <= y * w) by (nonlinear_arith)
        requires
            0 <= y,
            0 <= w,
    ;
}

} // verus!
