//! A small verified image-processing pipeline: decode a raster file into a
//! canonical 16-bit RGBA representation, derive a 16-bit luminance view,
//! apply a pixel transform (identity, threshold binarization, or an 11x11
//! averaging filter), and report summary statistics.
//!
//! The presentation layer is an external collaborator: it supplies file bytes
//! and a selected transform, and receives display buffers, statistics, or a
//! structured error. Only the decoding of bytes is delegated to an outside
//! decoder; every derivation and transform after it is verified.

pub mod canonical;
pub mod error;
pub mod decode;
pub mod panel;
pub mod pipeline;
pub mod transform;
