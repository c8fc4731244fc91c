//! Decoding, metadata reading and encoding, through the `image` and `exif`
//! crates. Each call is a pure function of the bytes or pixels handed to
//! it, so its result is named and the pipeline's contract speaks of the
//! names.

use vstd::prelude::*;

use crate::buffer::PixelBuffer;
use crate::color::Color;
use crate::error::FrameError;

verus! {

/// What `image::load_from_memory` decodes from a byte string, converted to
/// RGB: the dimensions and the row-major pixels, or `None` where the bytes
/// are not a recognized, intact image.
pub uninterp spec fn decoded_image(bytes: Seq<u8>) -> Option<(u32, u32, Seq<Color>)>;

/// What the EXIF orientation field of a byte string holds: the tag value,
/// or 1 (upright) where the container or the field is absent or unreadable.
pub uninterp spec fn orientation_of(bytes: Seq<u8>) -> u32;

/// What the encoder serializes for given dimensions, pixels and output
/// file extension, or `None` where the encoder rejects the combination.
pub uninterp spec fn encoded_image(w: u32, h: u32, data: Seq<Color>, ext: Seq<char>) -> Option<
    Seq<u8>,
>;

/// Relies on `image::load_from_memory` and `DynamicImage::to_rgb8`: the
/// decoded pixels are a function of the input bytes alone, and the storage
/// of the returned buffer holds one color per grid cell.
#[verifier::external_body]
pub fn decode_image(bytes: &[u8]) -> (r: Result<PixelBuffer, FrameError>)
    ensures
        r is Ok ==> decoded_image(bytes@) == Some(
            (r->Ok_0.width, r->Ok_0.height, r->Ok_0.data@),
        ) && r->Ok_0.wf(),
        r is Err ==> decoded_image(bytes@) is None && r->Err_0 == FrameError::DecodeError,
{
    match image::load_from_memory(bytes) {
        Ok(img) => {
            let rgb = img.to_rgb8();
            let (w, h) = rgb.dimensions();
            let data: Vec<Color> = rgb.pixels().map(
                |p| Color { r: p.0[0], g: p.0[1], b: p.0[2] },
            ).collect();
            Ok(PixelBuffer { width: w, height: h, data })
        },
        Err(_) => Err(FrameError::DecodeError),
    }
}

/// Relies on `exif::Reader::read_from_container`, `Exif::get_field` with
/// the orientation tag of the primary image, and `Value::get_uint`: the
/// tag value read is a function of the input bytes alone, and a missing or
/// unreadable container or field degrades to 1 (upright), never an error.
#[verifier::external_body]
pub fn read_orientation(bytes: &[u8]) -> (r: u32)
    ensures
        r == orientation_of(bytes@),
{
    let mut cur = std::io::Cursor::new(bytes);
    match exif::Reader::new().read_from_container(&mut cur) {
        Ok(meta) => match meta.get_field(exif::Tag::Orientation, exif::In::PRIMARY) {
            Some(field) => field.value.get_uint(0).unwrap_or(1),
            None => 1,
        },
        Err(_) => 1,
    }
}

/// Relies on `image::RgbImage::from_raw`, `ImageFormat::from_extension`
/// and `ImageBuffer::write_to` into an in-memory cursor: the bytes written
/// are a function of the pixels, the dimensions and the extension alone,
/// and a rejected extension or pixel combination surfaces as an error,
/// never a panic.
#[verifier::external_body]
pub fn encode_image(buf: &PixelBuffer, ext: &str) -> (r: Result<Vec<u8>, FrameError>)
    requires
        buf.wf(),
        buf.width >= 1,
        buf.height >= 1,
    ensures
        r is Ok ==> encoded_image(buf.width, buf.height, buf.data@, ext@) == Some(r->Ok_0@),
        r is Err ==> encoded_image(buf.width, buf.height, buf.data@, ext@) is None && r->Err_0
            == FrameError::EncodeError,
{
    let flat: Vec<u8> = buf.data.iter().flat_map(|c| [c.r, c.g, c.b]).collect();
    let img = match image::RgbImage::from_raw(buf.width, buf.height, flat) {
        Some(i) => i,
        None => return Err(FrameError::EncodeError),
    };
    let fmt = match image::ImageFormat::from_extension(ext) {
        Some(f) => f,
        None => return Err(FrameError::EncodeError),
    };
    let mut cur = std::io::Cursor::new(Vec::new());
    match img.write_to(&mut cur, fmt) {
        Ok(()) => Ok(cur.into_inner()),
        Err(_) => Err(FrameError::EncodeError),
    }
}

} // verus!
