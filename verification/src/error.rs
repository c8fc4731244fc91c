//! Errors a pipeline run can signal. Each aborts the run for its image;
//! metadata absence is never an error.

use vstd::prelude::*;

verus! {

/// Why a pipeline run failed.
#[derive(Clone, Copy, Debug, PartialEq, Eq, Structural)]
pub enum FrameError {
    /// The input could not be read as an image: unrecognized container,
    /// truncated or corrupt data, or a degenerate zero-sized image.
    DecodeError,
    /// The configuration leaves no room for the image: the canvas edge
    /// does not exceed twice the padding.
    InvalidConfiguration,
    /// The composited canvas could not be serialized in the requested
    /// format.
    EncodeError,
}

impl FrameError {
    /// A one-line human-readable description.
    pub fn describe(self) -> (r: &'static str)
        ensures
            self is DecodeError ==> r@ == "cannot decode input image"@,
            self is InvalidConfiguration ==> r@ == "size must exceed twice the padding"@,
            self is EncodeError ==> r@ == "cannot encode output image"@,
    {
        match self {
            FrameError::DecodeError => "cannot decode input image",
            FrameError::InvalidConfiguration => "size must exceed twice the padding",
            FrameError::EncodeError => "cannot encode output image",
        }
    }
}

} // verus!
