//! The closed error taxonomy of the pipeline: a failed load reports a missing
//! file or an undecodable one, and a transform without a loaded image is
//! rejected. Every error carries a human-readable message.

use vstd::prelude::*;

verus! {

broadcast use vstd::string::to_string_from_display_ensures_for_str;

/// Which failure of the pipeline an error reports.
#[derive(Debug, Clone, Copy, PartialEq, Eq, Structural)]
pub enum ErrorKind {
    /// The path handed to `load` does not resolve to an existing file.
    NotFound,
    /// The file's bytes could not be parsed as a supported raster format.
    DecodeError,
    /// A transform was requested while no image is loaded.
    NoImageLoaded,
}

/// A structured pipeline error: its kind and a displayable message.
#[derive(Debug, Clone)]
pub struct ImageProcessError {
    pub kind: ErrorKind,
    pub message: String,
}

impl ImageProcessError {
    /// The error for a path that does not exist.
    pub fn not_found() -> (e: Self)
        ensures
            e.kind == ErrorKind::NotFound,
            e.message@ == "file not found"@,
    {
        ImageProcessError { kind: ErrorKind::NotFound, message: "file not found".to_string() }
    }

    /// The error for bytes that the decoder rejected; `message` carries the
    /// decoder's own diagnostic.
    pub fn decode_error(message: String) -> (e: Self)
        ensures
            e.kind == ErrorKind::DecodeError,
            e.message == message,
    {
        ImageProcessError { kind: ErrorKind::DecodeError, message }
    }

    /// The error for a transform requested with no image loaded.
    pub fn no_image_loaded() -> (e: Self)
        ensures
            e.kind == ErrorKind::NoImageLoaded,
            e.message@ == "no image loaded"@,
    {
        ImageProcessError { kind: ErrorKind::NoImageLoaded, message: "no image loaded".to_string() }
    }
}

} // verus!
