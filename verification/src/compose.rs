//! Canvas compositing: a square canvas filled with the border color, with
//! the resized image copied into it — flush against the padding on its long
//! axis, centered on its short axis.

use vstd::prelude::*;

use crate::buffer::{lemma_cell_index_in_bounds, lemma_row_major, PixelBuffer};
use crate::color::Color;
use crate::resize::{lemma_scaled_short_le_max, spec_resized_dims};

verus! {

/// Placement of a `w × h` image on a `size × size` canvas: a landscape
/// image sits at `x = padding` and is centered vertically; a portrait or
/// square image sits at `y = padding` and is centered horizontally. The
/// centering division rounds down, biasing the spare pixel right or down.
pub open spec fn spec_offsets(w: int, h: int, padding: int, size: int) -> (int, int) {
    if w > h {
        (padding, (size - h) / 2)
    } else {
        ((size - w) / 2, padding)
    }
}

/// The color of the canvas pixel at `(x, y)`: the matching source pixel
/// where the placed image covers the canvas, the border color everywhere
/// else.
pub open spec fn spec_canvas_pixel(
    w: int,
    h: int,
    data: Seq<Color>,
    padding: int,
    size: int,
    color: Color,
    x: int,
    y: int,
) -> Color {
    let ox = spec_offsets(w, h, padding, size).0;
    let oy = spec_offsets(w, h, padding, size).1;
    if ox <= x < ox + w && oy <= y < oy + h {
        data[(y - oy) * w + (x - ox)]
    } else {
        color
    }
}

/// Storage of the composited canvas, row-major.
pub open spec fn spec_composed(
    w: int,
    h: int,
    data: Seq<Color>,
    padding: int,
    size: int,
    color: Color,
) -> Seq<Color> {
    Seq::new(
        (size * size) as nat,
        |i: int| spec_canvas_pixel(w, h, data, padding, size, color, i % size, i / size),
    )
}

/// Build the square output canvas: every cell is written exactly once,
/// either with the border color or with the covering source pixel.
pub fn compose(src: &PixelBuffer, padding: u32, size: u32, color: Color) -> (r: PixelBuffer)
    requires
        src.wf(),
        src.width >= 1,
        src.height >= 1,
        2 * padding < size,
        src.width <= size - 2 * padding,
        src.height <= size - 2 * padding,
    ensures
        r.width == size,
        r.height == size,
        r.wf(),
        r.data@ == spec_composed(
            src.width as int,
            src.height as int,
            src.data@,
            padding as int,
            size as int,
            color,
        ),
        forall|x: int, y: int|
            0 <= x < size && 0 <= y < size ==> r.spec_pixel(x, y) == spec_canvas_pixel(
                src.width as int,
                src.height as int,
                src.data@,
                padding as int,
                size as int,
                color,
                x,
                y,
            ),
    {
        let w = src.width;
        let h = src.height;
        let (ox, oy): (u32, u32) = if w > h {
            (padding, (size - h) / 2)
        } else {
            ((size - w) / 2, padding)
        };
        let mut data: Vec<Color> = Vec::new();
        let mut y: u32 = 0;
        while y < size
            invariant
                src.wf(),
                w == src.width,
                h == src.height,
                1 <= w,
                1 <= h,
                w <= size,
                h <= size,
                ox as int == spec_offsets(w as int, h as int, padding as int, size as int).0,
                oy as int == spec_offsets(w as int, h as int, padding as int, size as int).1,
                ox as int + w as int <= size as int,
                oy as int + h as int <= size as int,
                y <= size,
                data@.len() == y as int * size as int,
                forall|i: int|
                    0 <= i < data@.len() ==> data@[i] == spec_canvas_pixel(
                        w as int,
                        h as int,
                        src.data@,
                        padding as int,
                        size as int,
                        color,
                        i % (size as int),
                        i / (size as int),
                    ),
            decreases size - y,
        {
            let mut x: u32 = 0;
            while x < size
                invariant
                    src.wf(),
                    w == src.width,
                    h == src.height,
                    1 <= w,
                    1 <= h,
                    w <= size,
                    h <= size,
                    ox as int == spec_offsets(w as int, h as int, padding as int, size as int).0,
                    oy as int == spec_offsets(w as int, h as int, padding as int, size as int).1,
                    ox as int + w as int <= size as int,
                    oy as int + h as int <= size as int,
                    y < size,
                    x <= size,
                    data@.len() == y as int * size as int + x as int,
                    forall|i: int|
                        0 <= i < data@.len() ==> data@[i] == spec_canvas_pixel(
                            w as int,
                            h as int,
                            src.data@,
                            padding as int,
                            size as int,
                            color,
                            i % (size as int),
                            i / (size as int),
                        ),
                decreases size - x,
            {
                let c = if x >= ox && x < ox + w && y >= oy && y < oy + h {
                    src.pixel(x - ox, y - oy)
                } else {
                    color
                };
                proof {
                    lemma_row_major(x as int, y as int, size as int);
                }
                data.push(c);
                x += 1;
            }
            proof {
                assert((y as int + 1) * size as int == y as int * size as int + size as int)
                    by (nonlinear_arith);
            }
            y += 1;
        }
        let r = PixelBuffer { width: size, height: size, data };
        proof {
            assert(r.data@ =~= spec_composed(
                src.width as int,
                src.height as int,
                src.data@,
                padding as int,
                size as int,
                color,
            ));
            assert forall|x: int, y: int| 0 <= x < size && 0 <= y < size implies r.spec_pixel(x, y)
                == spec_canvas_pixel(
                src.width as int,
                src.height as int,
                src.data@,
                padding as int,
                size as int,
                color,
                x,
                y,
            ) by {
                lemma_row_major(x, y, size as int);
                lemma_cell_index_in_bounds(x, y, size as int, size as int);
            }
        }
        r
    }

/// Padding invariant: for a source whose width is at least its height, the
/// left and right margins of the placed image are each exactly `padding`,
/// the top margin is `(size - h) / 2`, and the top and bottom margins
/// differ by at most one pixel, the spare pixel going to the bottom.
pub proof fn lemma_padding_invariant(w: int, h: int, padding: int, size: int)
    requires
        1 <= h <= w,
        0 <= padding,
        2 * padding < size,
    ensures
        ({
            let max = size - 2 * padding;
            let dims = spec_resized_dims(w, h, max);
            let ox = spec_offsets(dims.0, dims.1, padding, size).0;
            let oy = spec_offsets(dims.0, dims.1, padding, size).1;
            &&& ox == padding
            &&& size - (ox + dims.0) == padding
            &&& oy == (size - dims.1) / 2
            &&& oy <= (size - dims.1) - oy
            &&& (size - dims.1) - oy - oy <= 1
        }),
{
    let max = size - 2 * padding;
    let dims = spec_resized_dims(w, h, max);
    lemma_scaled_short_le_max(h, w, max);
}

/// Canvas coverage: every pixel of the composited canvas is either the
/// exact border color or a pixel taken from the source storage.
pub proof fn lemma_canvas_coverage(
    w: int,
    h: int,
    data: Seq<Color>,
    padding: int,
    size: int,
    color: Color,
    x: int,
    y: int,
)
    requires
        1 <= w <= size,
        1 <= h <= size,
        0 <= x < size,
        0 <= y < size,
    ensures
        ({
            let c = spec_canvas_pixel(w, h, data, padding, size, color, x, y);
            c == color || (exists|sx: int, sy: int|
                0 <= sx < w && 0 <= sy < h && c == data[#[trigger] (sy * w + sx)])
        }),
{
    let ox = spec_offsets(w, h, padding, size).0;
    let oy = spec_offsets(w, h, padding, size).1;
    let c = spec_canvas_pixel(w, h, data, padding, size, color, x, y);
    if ox <= x < ox + w && oy <= y < oy + h {
        let sx = x - ox;
        let sy = y - oy;
        assert(0 <= sx < w && 0 <= sy < h && c == data[sy * w + sx]);
    }
}

} // verus!
