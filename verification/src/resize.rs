//! Aspect-preserving resize: the longer edge of the source is scaled to the
//! target length, the shorter edge is scaled by the same factor and rounded
//! to the nearest pixel (never below one).

use vstd::prelude::*;

use crate::buffer::PixelBuffer;
use crate::color::Color;

verus! {

/// The scaled length of the short edge: `short * max / long`, rounded to
/// the nearest whole pixel and clamped to at least one.
pub open spec fn spec_scaled_short(short: int, long: int, max: int) -> int {
    let rounded = (short * max + long / 2) / long;
    if rounded < 1 {
        1
    } else {
        rounded
    }
}

/// Dimensions of a `w × h` image resized so its longer edge measures
/// exactly `max`: the width leads when `w >= h`, the height otherwise.
pub open spec fn spec_resized_dims(w: int, h: int, max: int) -> (int, int) {
    if w >= h {
        (max, spec_scaled_short(h, w, max))
    } else {
        (spec_scaled_short(w, h, max), max)
    }
}

/// The scaled short edge never exceeds the target length.
pub proof fn lemma_scaled_short_le_max(short: int, long: int, max: int)
    requires
        1 <= short <= long,
        1 <= max,
    ensures
        1 <= spec_scaled_short(short, long, max) <= max,
{
    let rounded = (short * max + long / 2) / long;
    assert(rounded <= max) by (nonlinear_arith)
        requires
            1 <= short <= long,
            1 <= max,
            rounded == (short * max + long / 2) / long,
    ;
}

/// Compute the dimensions of the resized image.
pub fn resized_dims(w: u32, h: u32, max_size: u32) -> (r: (u32, u32))
    requires
        w >= 1,
        h >= 1,
        max_size >= 1,
    ensures
        (r.0 as int, r.1 as int) == spec_resized_dims(w as int, h as int, max_size as int),
        1 <= r.0 <= max_size,
        1 <= r.1 <= max_size,
        w >= h ==> r.0 == max_size,
        w < h ==> r.1 == max_size,
{
    if w >= h {
        let s = scaled_short(h, w, max_size);
        (max_size, s)
    } else {
        let s = scaled_short(w, h, max_size);
        (s, max_size)
    }
}

/// Compute the rounded length of the short edge.
fn scaled_short(short: u32, long: u32, max: u32) -> (r: u32)
    requires
        1 <= short <= long,
        1 <= max,
    ensures
        r as int == spec_scaled_short(short as int, long as int, max as int),
        1 <= r <= max,
{
    proof {
        lemma_scaled_short_le_max(short as int, long as int, max as int);
        assert(short as int * max as int + long as int / 2 < 0x1_0000_0000_0000_0000)
            by (nonlinear_arith)
            requires
                short as int <= 0xffff_ffff,
                max as int <= 0xffff_ffff,
                long as int <= 0xffff_ffff,
        ;
    }
    let num: u64 = (short as u64) * (max as u64) + (long as u64) / 2;
    let rounded: u64 = num / (long as u64);
    if rounded < 1 {
        1
    } else {
        rounded as u32
    }
}

/// Aspect preservation: the rounded short edge differs from the exact
/// rational `short * max / long` by at most one pixel, that is, the cross
/// products differ by at most `long`.
pub proof fn lemma_aspect_preserved(short: int, long: int, max: int)
    requires
        1 <= short <= long,
        1 <= max,
    ensures
        spec_scaled_short(short, long, max) * long - short * max <= long,
        short * max - spec_scaled_short(short, long, max) * long <= long,
{
    let rounded = (short * max + long / 2) / long;
    assert(rounded * long - short * max <= long && short * max - rounded * long <= long)
        by (nonlinear_arith)
        requires
            1 <= short <= long,
            1 <= max,
            rounded == (short * max + long / 2) / long,
    ;
    if rounded < 1 {
        assert(1 * long - short * max <= long && short * max - 1 * long <= long)
            by (nonlinear_arith)
            requires
                1 <= short <= long,
                1 <= max,
                rounded == (short * max + long / 2) / long,
                rounded < 1,
        ;
    }
}

/// What `image::imageops::resize` returns for given dimensions: a sampling
/// of the source grid with the Lanczos filter, a pure function of the
/// source pixels and the requested dimensions.
pub uninterp spec fn lanczos_resampled(
    w: int,
    h: int,
    data: Seq<Color>,
    nw: int,
    nh: int,
) -> Seq<Color>;

/// Relies on `image::imageops::resize` with `FilterType::Lanczos3`: the
/// output buffer has exactly the requested dimensions, and its samples
/// depend only on the source pixels and the two dimension pairs.
#[verifier::external_body]
pub fn resample(src: &PixelBuffer, nw: u32, nh: u32) -> (r: PixelBuffer)
    requires
        src.wf(),
        src.width >= 1,
        src.height >= 1,
        nw >= 1,
        nh >= 1,
    ensures
        r.width == nw,
        r.height == nh,
        r.wf(),
        r.data@ == lanczos_resampled(
            src.width as int,
            src.height as int,
            src.data@,
            nw as int,
            nh as int,
        ),
{
    let flat: Vec<u8> = src.data.iter().flat_map(|c| [c.r, c.g, c.b]).collect();
    let img = image::RgbImage::from_raw(src.width, src.height, flat).unwrap();
    let out = image::imageops::resize(&img, nw, nh, image::imageops::FilterType::Lanczos3);
    let data: Vec<Color> = out.pixels().map(
        |p| Color { r: p.0[0], g: p.0[1], b: p.0[2] },
    ).collect();
    PixelBuffer { width: nw, height: nh, data }
}

} // verus!
