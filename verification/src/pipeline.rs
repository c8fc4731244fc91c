//! The frame-composition pipeline: decode, orientation correction,
//! aspect-preserving resize, canvas compositing, encode. One run per
//! image, no state across runs.

use vstd::prelude::*;

use crate::codec::{
    decode_image, decoded_image, encode_image, encoded_image, orientation_of, read_orientation,
};
use crate::color::Color;
use crate::compose::{compose, spec_composed};
use crate::config::{spec_ext, Config};
use crate::error::FrameError;
use crate::orient::{spec_rot180, spec_rot270, spec_rot90};
use crate::resize::{lanczos_resampled, resample, resized_dims, spec_resized_dims};

verus! {

/// The edge available to the resized image: the canvas minus the padding
/// on both sides. A run is accepted only where this is positive.
pub open spec fn spec_max_size(config: Config) -> int {
    config.size - 2 * config.padding
}

/// Dimensions and storage after orientation correction: tag 3 turns the
/// grid 180 degrees, tag 6 turns it 90 degrees clockwise, tag 8 turns it
/// 270 degrees clockwise, anything else leaves it unchanged.
pub open spec fn spec_normalized(w: int, h: int, data: Seq<Color>, tag: u32) -> (
    int,
    int,
    Seq<Color>,
) {
    if tag == 3 {
        (w, h, spec_rot180(w, h, data))
    } else if tag == 6 {
        (h, w, spec_rot90(w, h, data))
    } else if tag == 8 {
        (h, w, spec_rot270(w, h, data))
    } else {
        (w, h, data)
    }
}

/// What one pipeline run produces for given input bytes and configuration:
/// the encoded output bytes, or the error the run signals. A configuration
/// whose canvas does not exceed twice the padding is rejected before any
/// work; bytes that do not decode (a zero-sized image included) signal a
/// decode error; a format the encoder rejects signals an encode error.
pub open spec fn spec_pipeline(bytes: Seq<u8>, config: Config) -> Result<Seq<u8>, FrameError> {
    if spec_max_size(config) <= 0 {
        Err(FrameError::InvalidConfiguration)
    } else {
        match decoded_image(bytes) {
            Option::None => Err(FrameError::DecodeError),
            Option::Some(dec) => {
                if dec.0 == 0 || dec.1 == 0 {
                    Err(FrameError::DecodeError)
                } else {
                    let norm = spec_normalized(
                        dec.0 as int,
                        dec.1 as int,
                        dec.2,
                        orientation_of(bytes),
                    );
                    let dims = spec_resized_dims(norm.0, norm.1, spec_max_size(config));
                    let resized = lanczos_resampled(norm.0, norm.1, norm.2, dims.0, dims.1);
                    let canvas = spec_composed(
                        dims.0,
                        dims.1,
                        resized,
                        config.padding as int,
                        config.size as int,
                        config.color,
                    );
                    match encoded_image(config.size, config.size, canvas, spec_ext(config.format)) {
                        Option::None => Err(FrameError::EncodeError),
                        Option::Some(out) => Ok(out),
                    }
                }
            },
        }
    }
}

/// Run the whole pipeline on the bytes of one input file.
pub fn process_image(bytes: &[u8], config: &Config) -> (r: Result<Vec<u8>, FrameError>)
    ensures
        r is Ok <==> spec_pipeline(bytes@, *config) is Ok,
        r is Ok ==> Ok::<Seq<u8>, FrameError>(r->Ok_0@) == spec_pipeline(bytes@, *config),
        r is Err ==> Err::<Seq<u8>, FrameError>(r->Err_0) == spec_pipeline(bytes@, *config),
{
    if (config.size as u64) <= 2 * (config.padding as u64) {
        return Err(FrameError::InvalidConfiguration);
    }
    let max_size: u32 = config.size - 2 * config.padding;
    let decoded = match decode_image(bytes) {
        Ok(b) => b,
        Err(e) => {
            return Err(e);
        },
    };
    if decoded.width == 0 || decoded.height == 0 {
        return Err(FrameError::DecodeError);
    }
    let tag = read_orientation(bytes);
    let normalized = decoded.normalize(tag);
    let dims = resized_dims(normalized.width, normalized.height, max_size);
    let resized = resample(&normalized, dims.0, dims.1);
    let canvas = compose(&resized, config.padding, config.size, config.color);
    encode_image(&canvas, config.format.ext())
}

/// Determinism of a run: two successful runs on the same input bytes and
/// the same configuration produce byte-identical output.
pub proof fn lemma_pipeline_deterministic(
    bytes: Seq<u8>,
    config: Config,
    out1: Seq<u8>,
    out2: Seq<u8>,
)
    requires
        spec_pipeline(bytes, config) == Ok::<Seq<u8>, FrameError>(out1),
        spec_pipeline(bytes, config) == Ok::<Seq<u8>, FrameError>(out2),
    ensures
        out1 == out2,
{
}

} // verus!
