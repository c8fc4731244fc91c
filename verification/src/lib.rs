//! Frame-composition pipeline: decode an image, correct its EXIF
//! orientation, resize it so the longer edge fits inside a square canvas
//! minus a fixed padding, composite it centered onto a uniform-color
//! canvas, and encode the result.

pub mod buffer;
pub mod codec;
pub mod color;
pub mod compose;
pub mod config;
pub mod error;
pub mod orient;
pub mod paths;
pub mod pipeline;
pub mod resize;
