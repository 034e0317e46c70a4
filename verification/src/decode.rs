//! The trusted boundary to the outside raster decoder. Only this wrapper is
//! taken on trust; everything that follows the decoded samples is verified.
//!
//! Decoding is a pure function of the file bytes, so its outcome is given
//! names: whether the bytes decode, the decoded dimensions and samples, and
//! the decoder's diagnostic when they do not. The names let callers state
//! exactly when loading succeeds and that the loaded image is the decoded
//! one, without writing out any decoding algorithm.

use vstd::prelude::*;
use crate::canonical::CanonicalImage;

verus! {

/// Whether the outside decoder accepts the bytes as a raster image.
pub uninterp spec fn decode_ok(bytes: Seq<u8>) -> bool;

/// The width, in pixels, of the image decoded from the bytes.
pub uninterp spec fn decode_width(bytes: Seq<u8>) -> u32;

/// The height, in pixels, of the image decoded from the bytes.
pub uninterp spec fn decode_height(bytes: Seq<u8>) -> u32;

/// The decoded image's flat 16-bit RGBA samples, row-major, 4 per pixel.
pub uninterp spec fn decode_pixels(bytes: Seq<u8>) -> Seq<u16>;

/// The decoder's diagnostic for bytes it rejects.
pub uninterp spec fn decode_err_text(bytes: Seq<u8>) -> Seq<char>;

/// Relies on image::load_from_memory, DynamicImage::to_rgba16 and
/// ImageBuffer::into_raw: the bytes are decoded in a guessed raster format
/// and converted to a 16-bit RGBA buffer of exactly 4 samples per pixel for
/// the dimensions it reports; the whole outcome, the diagnostic included, is
/// a function of the bytes alone. A rejection's text is carried over as the
/// error's display text.
#[verifier::external_body]
fn decode_rgba16(bytes: &[u8]) -> (r: Result<(u32, u32, Vec<u16>), String>)
    ensures
        r is Ok <==> decode_ok(bytes@),
        r matches Ok(t) ==> t.0 == decode_width(bytes@) && t.1 == decode_height(bytes@)
            && t.2@ == decode_pixels(bytes@) && t.2@.len() == 4 * ((t.0 as int) * (t.1 as int)),
        r matches Err(m) ==> m@ == decode_err_text(bytes@),
{
    match image::load_from_memory(bytes) {
        Ok(img) => {
            let buf = img.to_rgba16();
            let width = buf.width();
            let height = buf.height();
            Ok((width, height, buf.into_raw()))
        }
        Err(e) => Err(e.to_string()),
    }
}

/// Decode file bytes into the canonical image, or hand back the decoder's
/// diagnostic. Succeeds exactly when the bytes decode to an image with
/// positive dimensions; the result then holds precisely the decoded samples.
pub fn decode_canonical(bytes: &[u8]) -> (r: Result<CanonicalImage, String>)
    ensures
        r is Ok <==> decode_ok(bytes@) && decode_width(bytes@) > 0 && decode_height(bytes@) > 0,
        r matches Ok(img) ==> {
            &&& img.wf()
            &&& img.spec_width() == decode_width(bytes@)
            &&& img.spec_height() == decode_height(bytes@)
            &&& img.spec_pixels() == decode_pixels(bytes@)
        },
        !decode_ok(bytes@) ==> (r matches Err(m) && m@ == decode_err_text(bytes@)),
{
    let (width, height, pixels) = match decode_rgba16(bytes) {
        Result::Err(m) => {
            return Err(m);
        },
        Result::Ok(t) => t,
    };
    match CanonicalImage::new(width, height, pixels) {
        Option::None => Err("decoded image has no pixels".to_string()),
        Option::Some(img) => Ok(img),
    }
}

} // verus!
