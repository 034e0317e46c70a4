//! One displayable image held by a slot, with the renderings and summary
//! statistics the presentation layer asks of it.

use vstd::prelude::*;
use crate::canonical::CanonicalImage;
use crate::canonical::DisplayBuffer;
use crate::canonical::gray8_seq;
use crate::canonical::img_eq;
use crate::canonical::luma_seq;
use crate::canonical::shrink8_seq;

verus! {

/// A slot's image: a canonical image together with the operations a panel
/// needs — display renderings, dimensions, and luminance extremes.
#[derive(Debug)]
pub struct ImagePanelData {
    pub image: CanonicalImage,
}

impl ImagePanelData {
    /// Well-formedness of the held image.
    pub open spec fn wf(&self) -> bool {
        self.image.wf()
    }

    /// The grayscale rendering of the held image: 16-bit luminance truncated
    /// to 8 bits by division by 256, replicated into R, G, B, opaque alpha.
    pub fn to_handle(&self) -> (buf: DisplayBuffer)
        requires
            self.wf(),
        ensures
            buf.wf(),
            buf.spec_width() == self.image.spec_width(),
            buf.spec_height() == self.image.spec_height(),
            buf.spec_data() == gray8_seq(luma_seq(self.image.spec_pixels(), self.image.area())),
    {
        self.image.to_display8()
    }

    /// The true-color rendering of the held image: every 16-bit sample
    /// narrowed to 8 bits by the rounding division `(c + 128) / 257`.
    pub fn to_rgba8_image_handle(&self) -> (buf: DisplayBuffer)
        requires
            self.wf(),
        ensures
            buf.wf(),
            buf.spec_width() == self.image.spec_width(),
            buf.spec_height() == self.image.spec_height(),
            buf.spec_data() == shrink8_seq(self.image.spec_pixels()),
    {
        self.image.to_rgba8()
    }

    /// The held image's width in pixels.
    pub fn get_image_width(&self) -> (w: usize)
        ensures
            w == self.image.spec_width(),
    {
        self.image.width() as usize
    }

    /// The held image's height in pixels.
    pub fn get_image_height(&self) -> (h: usize)
        ensures
            h == self.image.spec_height(),
    {
        self.image.height() as usize
    }

    /// The largest 16-bit luminance sample of the held image.
    pub fn get_max_image_value(&self) -> (m: usize)
        requires
            self.wf(),
        ensures
            m <= 65535,
            exists|i: int|
                0 <= i < self.image.area() && luma_seq(self.image.spec_pixels(), self.image.area())[i]
                    as int == m as int,
            forall|i: int|
                0 <= i < self.image.area() ==> luma_seq(self.image.spec_pixels(), self.image.area())[i]
                    <= m,
    {
        let lum = self.image.to_luminance();
        lum.max_sample() as usize
    }

    /// The smallest 16-bit luminance sample of the held image.
    pub fn get_min_image_value(&self) -> (m: usize)
        requires
            self.wf(),
        ensures
            m <= 65535,
            exists|i: int|
                0 <= i < self.image.area() && luma_seq(self.image.spec_pixels(), self.image.area())[i]
                    as int == m as int,
            forall|i: int|
                0 <= i < self.image.area() ==> m <= luma_seq(
                    self.image.spec_pixels(),
                    self.image.area(),
                )[i],
    {
        let lum = self.image.to_luminance();
        lum.min_sample() as usize
    }

    /// Read access to the held canonical image.
    pub fn get_image(&self) -> (img: &CanonicalImage)
        ensures
            *img == self.image,
    {
        &self.image
    }
}

impl Clone for ImagePanelData {
    /// A clone holds a pixel-identical image.
    fn clone(&self) -> (res: Self)
        ensures
            img_eq(res.image, self.image),
    {
        ImagePanelData { image: self.image.clone() }
    }
}

} // verus!
