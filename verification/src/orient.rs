//! Orientation correction: fixed-angle rotations chosen by the EXIF
//! orientation tag, so that "up" in the pixel grid matches visual "up".

use vstd::prelude::*;

use crate::buffer::{lemma_cell_index_in_bounds, lemma_row_major, PixelBuffer};
use crate::color::Color;

verus! {

/// Storage of a grid rotated 90 degrees clockwise. The source is `w × h`;
/// the result is `h × w`, and its pixel at `(x, y)` is the source pixel at
/// `(y, h - 1 - x)`.
pub open spec fn spec_rot90(w: int, h: int, data: Seq<Color>) -> Seq<Color> {
    Seq::new((w * h) as nat, |i: int| data[(h - 1 - i % h) * w + i / h])
}

/// Storage of a grid rotated 180 degrees. Dimensions are unchanged, and the
/// pixel at `(x, y)` is the source pixel at `(w - 1 - x, h - 1 - y)`.
pub open spec fn spec_rot180(w: int, h: int, data: Seq<Color>) -> Seq<Color> {
    Seq::new((w * h) as nat, |i: int| data[(h - 1 - i / w) * w + (w - 1 - i % w)])
}

/// Storage of a grid rotated 270 degrees clockwise. The source is `w × h`;
/// the result is `h × w`, and its pixel at `(x, y)` is the source pixel at
/// `(w - 1 - y, x)`.
pub open spec fn spec_rot270(w: int, h: int, data: Seq<Color>) -> Seq<Color> {
    Seq::new((w * h) as nat, |i: int| data[(i % h) * w + (w - 1 - i / h)])
}

/// `dst` is `src` rotated 90 degrees clockwise.
pub open spec fn is_rotate90(src: PixelBuffer, dst: PixelBuffer) -> bool {
    &&& dst.width == src.height
    &&& dst.height == src.width
    &&& dst.data@ == spec_rot90(src.width as int, src.height as int, src.data@)
}

/// `dst` is `src` rotated 180 degrees.
pub open spec fn is_rotate180(src: PixelBuffer, dst: PixelBuffer) -> bool {
    &&& dst.width == src.width
    &&& dst.height == src.height
    &&& dst.data@ == spec_rot180(src.width as int, src.height as int, src.data@)
}

/// `dst` is `src` rotated 270 degrees clockwise.
pub open spec fn is_rotate270(src: PixelBuffer, dst: PixelBuffer) -> bool {
    &&& dst.width == src.height
    &&& dst.height == src.width
    &&& dst.data@ == spec_rot270(src.width as int, src.height as int, src.data@)
}

impl PixelBuffer {
    /// Rotate the image 90 degrees clockwise.
    pub fn rotate90(&self) -> (r: PixelBuffer)
        requires
            self.wf(),
        ensures
            is_rotate90(*self, r),
            r.wf(),
            forall|x: int, y: int|
                0 <= x < r.width && 0 <= y < r.height ==> r.spec_pixel(x, y) == self.spec_pixel(
                    y,
                    self.height - 1 - x,
                ),
    {
        let nw: u32 = self.height;
        let nh: u32 = self.width;
        let mut data: Vec<Color> = Vec::new();
        let mut y: u32 = 0;
        while y < nh
            invariant
                self.wf(),
                nw == self.height,
                nh == self.width,
                y <= nh,
                data@.len() == y as int * nw as int,
                forall|i: int|
                    0 <= i < data@.len() ==> data@[i] == self.data@[(nw as int - 1 - i % (
                    nw as int)) * nh as int + i / (nw as int)],
            decreases nh - y,
        {
            let mut x: u32 = 0;
            while x < nw
                invariant
                    self.wf(),
                    nw == self.height,
                    nh == self.width,
                    y < nh,
                    x <= nw,
                    data@.len() == y as int * nw as int + x as int,
                    forall|i: int|
                        0 <= i < data@.len() ==> data@[i] == self.data@[(nw as int - 1 - i % (
                        nw as int)) * nh as int + i / (nw as int)],
                decreases nw - x,
            {
                let c = self.pixel(y, nw - 1 - x);
                proof {
                    lemma_row_major(x as int, y as int, nw as int);
                }
                data.push(c);
                x += 1;
            }
            proof {
                assert((y as int + 1) * nw as int == y as int * nw as int + nw as int)
                    by (nonlinear_arith);
            }
            y += 1;
        }
        let r = PixelBuffer { width: nw, height: nh, data };
        proof {
            assert(r.data@ =~= spec_rot90(self.width as int, self.height as int, self.data@));
            assert(nw as int * nh as int == nh as int * nw as int) by (nonlinear_arith);
            assert forall|x: int, y: int| 0 <= x < r.width && 0 <= y < r.height implies r.spec_pixel(
                x,
                y,
            ) == self.spec_pixel(y, self.height - 1 - x) by {
                lemma_row_major(x, y, nw as int);
                lemma_cell_index_in_bounds(x, y, nw as int, nh as int);
            }
        }
        r
    }

    /// Rotate the image 180 degrees.
    pub fn rotate180(&self) -> (r: PixelBuffer)
        requires
            self.wf(),
        ensures
            is_rotate180(*self, r),
            r.wf(),
            forall|x: int, y: int|
                0 <= x < r.width && 0 <= y < r.height ==> r.spec_pixel(x, y) == self.spec_pixel(
                    self.width - 1 - x,
                    self.height - 1 - y,
                ),
    {
        let nw: u32 = self.width;
        let nh: u32 = self.height;
        let mut data: Vec<Color> = Vec::new();
        let mut y: u32 = 0;
        while y < nh
            invariant
                self.wf(),
                nw == self.width,
                nh == self.height,
                y <= nh,
                data@.len() == y as int * nw as int,
                forall|i: int|
                    0 <= i < data@.len() ==> data@[i] == self.data@[(nh as int - 1 - i / (
                    nw as int)) * nw as int + (nw as int - 1 - i % (nw as int))],
            decreases nh - y,
        {
            let mut x: u32 = 0;
            while x < nw
                invariant
                    self.wf(),
                    nw == self.width,
                    nh == self.height,
                    y < nh,
                    x <= nw,
                    data@.len() == y as int * nw as int + x as int,
                    forall|i: int|
                        0 <= i < data@.len() ==> data@[i] == self.data@[(nh as int - 1 - i / (
                        nw as int)) * nw as int + (nw as int - 1 - i % (nw as int))],
                decreases nw - x,
            {
                let c = self.pixel(nw - 1 - x, nh - 1 - y);
                proof {
                    lemma_row_major(x as int, y as int, nw as int);
                }
                data.push(c);
                x += 1;
            }
            proof {
                assert((y as int + 1) * nw as int == y as int * nw as int + nw as int)
                    by (nonlinear_arith);
            }
            y += 1;
        }
        let r = PixelBuffer { width: nw, height: nh, data };
        proof {
            assert(nw as int * nh as int == nh as int * nw as int) by (nonlinear_arith);
            assert(r.data@ =~= spec_rot180(self.width as int, self.height as int, self.data@));
            assert forall|x: int, y: int| 0 <= x < r.width && 0 <= y < r.height implies r.spec_pixel(
                x,
                y,
            ) == self.spec_pixel(self.width - 1 - x, self.height - 1 - y) by {
                lemma_row_major(x, y, nw as int);
                lemma_cell_index_in_bounds(x, y, nw as int, nh as int);
            }
        }
        r
    }

    /// Rotate the image 270 degrees clockwise.
    pub fn rotate270(&self) -> (r: PixelBuffer)
        requires
            self.wf(),
        ensures
            is_rotate270(*self, r),
            r.wf(),
            forall|x: int, y: int|
                0 <= x < r.width && 0 <= y < r.height ==> r.spec_pixel(x, y) == self.spec_pixel(
                    self.width - 1 - y,
                    x,
                ),
    {
        let nw: u32 = self.height;
        let nh: u32 = self.width;
        let mut data: Vec<Color> = Vec::new();
        let mut y: u32 = 0;
        while y < nh
            invariant
                self.wf(),
                nw == self.height,
                nh == self.width,
                y <= nh,
                data@.len() == y as int * nw as int,
                forall|i: int|
                    0 <= i < data@.len() ==> data@[i] == self.data@[(i % (nw as int)) * nh as int + (
                    nh as int - 1 - i / (nw as int))],
            decreases nh - y,
        {
            let mut x: u32 = 0;
            while x < nw
                invariant
                    self.wf(),
                    nw == self.height,
                    nh == self.width,
                    y < nh,
                    x <= nw,
                    data@.len() == y as int * nw as int + x as int,
                    forall|i: int|
                        0 <= i < data@.len() ==> data@[i] == self.data@[(i % (nw as int))
                            * nh as int + (nh as int - 1 - i / (nw as int))],
                decreases nw - x,
            {
                let c = self.pixel(nh - 1 - y, x);
                proof {
                    lemma_row_major(x as int, y as int, nw as int);
                }
                data.push(c);
                x += 1;
            }
            proof {
                assert((y as int + 1) * nw as int == y as int * nw as int + nw as int)
                    by (nonlinear_arith);
            }
            y += 1;
        }
        let r = PixelBuffer { width: nw, height: nh, data };
        proof {
            assert(r.data@ =~= spec_rot270(self.width as int, self.height as int, self.data@));
            assert(nw as int * nh as int == nh as int * nw as int) by (nonlinear_arith);
            assert forall|x: int, y: int| 0 <= x < r.width && 0 <= y < r.height implies r.spec_pixel(
                x,
                y,
            ) == self.spec_pixel(self.width - 1 - y, x) by {
                lemma_row_major(x, y, nw as int);
                lemma_cell_index_in_bounds(x, y, nw as int, nh as int);
            }
        }
        r
    }

    /// Apply the correction that the EXIF orientation tag calls for:
    /// tag 3 turns the image 180 degrees, tag 6 turns it 90 degrees
    /// clockwise, tag 8 turns it 270 degrees clockwise, and every other
    /// value (the mirrored orientations 2, 4, 5, 7 included) leaves the
    /// image untouched.
    pub fn normalize(self, tag: u32) -> (r: PixelBuffer)
        requires
            self.wf(),
        ensures
            r.wf(),
            tag == 3 ==> is_rotate180(self, r),
            tag == 6 ==> is_rotate90(self, r),
            tag == 8 ==> is_rotate270(self, r),
            tag != 3 && tag != 6 && tag != 8 ==> r == self,
    {
        if tag == 3 {
            self.rotate180()
        } else if tag == 6 {
            self.rotate90()
        } else if tag == 8 {
            self.rotate270()
        } else {
            self
        }
    }
}

/// Orientation round trip: a 90-degree clockwise turn, as the correction
/// for orientation tag 6 performs it, swaps the buffer's dimensions, and
/// the opposite turn afterwards restores the original dimensions and every
/// pixel.
pub proof fn lemma_orientation_round_trip(a: PixelBuffer, b: PixelBuffer, c: PixelBuffer)
    requires
        a.wf(),
        is_rotate90(a, b),
        is_rotate270(b, c),
    ensures
        b.width == a.height,
        b.height == a.width,
        c.width == a.width,
        c.height == a.height,
        c.data@ == a.data@,
{
    let w = a.width as int;
    let h = a.height as int;
    assert(w * h == h * w) by (nonlinear_arith);
    assert forall|i: int| 0 <= i < w * h implies c.data@[i] == a.data@[i] by {
        assert(0 < w && 0 < h) by (nonlinear_arith)
            requires
                0 <= i < w * h,
                0 <= w,
                0 <= h,
        ;
        let x = i % w;
        let y = i / w;
        vstd::arithmetic::div_mod::lemma_fundamental_div_mod(i, w);
        vstd::arithmetic::div_mod::lemma_mod_bound(i, w);
        assert(0 <= y < h) by (nonlinear_arith)
            requires
                i == w * y + x,
                0 <= x < w,
                0 <= i < w * h,
                1 <= w,
        ;
        let j = x * h + (h - 1 - y);
        lemma_cell_index_in_bounds(h - 1 - y, x, h, w);
        lemma_row_major(h - 1 - y, x, h);
        assert(c.data@[i] == b.data@[j]);
        assert(b.data@[j] == a.data@[(h - 1 - j % h) * w + j / h]);
        assert(a.data@[(h - 1 - j % h) * w + j / h] == a.data@[y * w + x]);
    }
    assert(c.data@ =~= a.data@);
}

} // verus!
