//! In-memory pixel buffers: a rectangular RGB grid stored row-major.

use vstd::prelude::*;

use crate::color::Color;

verus! {

/// A rectangular grid of RGB pixels, stored row by row from the top-left
/// corner: the pixel at column `x` and row `y` sits at index `y * width + x`.
#[derive(Clone, Debug, PartialEq, Eq)]
pub struct PixelBuffer {
    pub width: u32,
    pub height: u32,
    pub data: Vec<Color>,
}

impl PixelBuffer {
    /// Well-formedness: the storage holds exactly one color per grid cell.
    pub open spec fn wf(self) -> bool {
        self.data@.len() == self.width as int * self.height as int
    }

    /// The color of the pixel at column `x`, row `y`.
    pub open spec fn spec_pixel(self, x: int, y: int) -> Color {
        self.data@[y * self.width as int + x]
    }

    /// Read the pixel at column `x`, row `y`.
    pub fn pixel(&self, x: u32, y: u32) -> (c: Color)
        requires
            self.wf(),
            x < self.width,
            y < self.height,
        ensures
            c == self.spec_pixel(x as int, y as int),
    {
        proof {
            lemma_cell_index_in_bounds(x as int, y as int, self.width as int, self.height as int);
        }
        // the storage length bounds the index, so the arithmetic fits usize
        let _len = self.data.len();
        let idx = (y as usize) * (self.width as usize) + (x as usize);
        self.data[idx]
    }
}

/// A cell inside the grid maps to a storage index inside the buffer.
pub proof fn lemma_cell_index_in_bounds(x: int, y: int, w: int, h: int)
    requires
        0 <= x < w,
        0 <= y < h,
    ensures
        0 <= y * w + x < w * h,
{
    assert(0 <= y * w + x < w * h) by (nonlinear_arith)
        requires
            0 <= x < w,
            0 <= y < h,
    ;
}

/// Row-major decomposition: a storage index built from a cell splits back
/// into the same row and column.
pub proof fn lemma_row_major(x: int, y: int, w: int)
    requires
        0 <= x < w,
        0 <= y,
    ensures
        (y * w + x) / w == y,
        (y * w + x) % w == x,
{
    vstd::arithmetic::div_mod::lemma_fundamental_div_mod_converse(y * w + x, w, y, x);
}

} // verus!
