//! The in-memory image representations: the canonical decoded image (16-bit
//! RGBA samples), the 16-bit single-channel luminance view derived from it,
//! and the 8-bit RGBA display buffer handed to the presentation layer.

use vstd::prelude::*;

verus! {

/// Perceptual luma weight for the red channel, in ten-thousandths.
pub const LUMA_R: u32 = 2126;

/// Perceptual luma weight for the green channel, in ten-thousandths.
pub const LUMA_G: u32 = 7152;

/// Perceptual luma weight for the blue channel, in ten-thousandths.
pub const LUMA_B: u32 = 722;

/// The 16-bit luminance of one RGB triple of 16-bit samples, by the standard
/// perceptual weighting. The weights sum to 10000, so a gray triple keeps its
/// value, and the result never exceeds the largest sample.
pub open spec fn luma_spec(r: u16, g: u16, b: u16) -> u16 {
    ((LUMA_R * r + LUMA_G * g + LUMA_B * b) / 10000) as u16
}

/// Combine one pixel's 16-bit color samples into a 16-bit luminance sample.
pub fn luma_of_rgb(r: u16, g: u16, b: u16) -> (l: u16)
    ensures
        l == luma_spec(r, g, b),
{
    let weighted: u32 = LUMA_R * (r as u32) + LUMA_G * (g as u32) + LUMA_B * (b as u32);
    (weighted / 10000) as u16
}

/// The product of two positive sides is positive.
pub proof fn lemma_area_positive(w: int, h: int)
    requires
        0 < w,
        0 < h,
    ensures
        0 < w * h,
{
    assert(0 < w * h) by (nonlinear_arith)
        requires
            0 < w,
            0 < h,
    ;
}

/// The product of two sides below 2^32 stays below 2^64.
pub proof fn lemma_area_bound(w: int, h: int)
    requires
        0 <= w < 0x1_0000_0000,
        0 <= h < 0x1_0000_0000,
    ensures
        w * h < 0x1_0000_0000_0000_0000,
{
    assert(w * h < 0x1_0000_0000_0000_0000) by (nonlinear_arith)
        requires
            0 <= w < 0x1_0000_0000,
            0 <= h < 0x1_0000_0000,
    ;
}

/// Row-major flattening keeps grid coordinates inside the sample storage.
pub proof fn lemma_grid_index(x: int, y: int, w: int, h: int)
    requires
        0 <= x < w,
        0 <= y < h,
    ensures
        0 <= y * w + x < w * h,
{
    assert(0 <= y * w + x < w * h) by (nonlinear_arith)
        requires
            0 <= x < w,
            0 <= y < h,
    ;
}

/// The luminance samples of a flat 16-bit RGBA sample sequence, one sample
/// per pixel, in row-major pixel order. `n` is the pixel count.
pub open spec fn luma_seq(pix: Seq<u16>, n: int) -> Seq<u16> {
    Seq::new(n as nat, |i: int| luma_spec(pix[4 * i], pix[4 * i + 1], pix[4 * i + 2]))
}

/// Each 16-bit sample narrowed to 8 bits by the rounding division
/// `(c + 128) / 257` — the exact inverse of the 257-fold widening, so
/// samples of 8-bit origin come back unchanged.
pub open spec fn shrink8_seq(pix: Seq<u16>) -> Seq<u8> {
    Seq::new(pix.len(), |j: int| ((pix[j] + 128) / 257) as u8)
}

/// The opaque grayscale 8-bit RGBA rendering of a luminance sequence: every
/// color channel is the sample divided by 256, alpha is full opacity.
pub open spec fn gray8_seq(lum: Seq<u16>) -> Seq<u8> {
    Seq::new(
        (4 * lum.len()) as nat,
        |j: int| if j % 4 == 3 {
            255u8
        } else {
            (lum[j / 4] / 256) as u8
        },
    )
}

/// Each 8-bit sample widened to 16 bits by multiplication by 257, so that 0
/// stays 0 and 255 becomes the full-scale 65535.
pub open spec fn widen16_seq(d: Seq<u8>) -> Seq<u16> {
    Seq::new(d.len(), |j: int| (257 * d[j]) as u16)
}

/// Two canonical images are pixel-identical: same dimensions and the same
/// sample at every position.
pub open spec fn img_eq(a: CanonicalImage, b: CanonicalImage) -> bool {
    &&& a.spec_width() == b.spec_width()
    &&& a.spec_height() == b.spec_height()
    &&& a.spec_pixels() == b.spec_pixels()
}

/// The canonical decoded image: positive dimensions and one 16-bit RGBA
/// sample quadruple per pixel, in row-major order. Immutable once built.
#[derive(Debug)]
pub struct CanonicalImage {
    width: u32,
    height: u32,
    pixels: Vec<u16>,
}

impl CanonicalImage {
    /// The image width in pixels.
    pub closed spec fn spec_width(&self) -> u32 {
        self.width
    }

    /// The image height in pixels.
    pub closed spec fn spec_height(&self) -> u32 {
        self.height
    }

    /// The flat 16-bit sample storage, 4 samples (R, G, B, A) per pixel.
    pub closed spec fn spec_pixels(&self) -> Seq<u16> {
        self.pixels@
    }

    /// The pixel count.
    pub open spec fn area(&self) -> int {
        self.spec_width() * self.spec_height()
    }

    /// Well-formedness: positive dimensions, and the sample storage matches
    /// them exactly.
    pub open spec fn wf(&self) -> bool {
        &&& 0 < self.spec_width()
        &&& 0 < self.spec_height()
        &&& self.spec_pixels().len() == 4 * self.area()
    }

    /// Build a canonical image from its dimensions and flat sample storage.
    /// Rejects empty dimensions and storage of the wrong length.
    pub fn new(width: u32, height: u32, pixels: Vec<u16>) -> (r: Option<CanonicalImage>)
        ensures
            match r {
                Some(img) => {
                    &&& img.wf()
                    &&& img.spec_width() == width
                    &&& img.spec_height() == height
                    &&& img.spec_pixels() == pixels@
                },
                None => !(0 < width && 0 < height && pixels@.len() == 4 * (width * height)),
            },
    {
        if width == 0 || height == 0 {
            return None;
        }
        proof {
            lemma_area_bound(width as int, height as int);
        }
        let wh: u64 = (width as u64) * (height as u64);
        if (pixels.len() as u128) != 4u128 * (wh as u128) {
            return None;
        }
        Some(CanonicalImage { width, height, pixels })
    }

    pub fn width(&self) -> (w: u32)
        ensures
            w == self.spec_width(),
    {
        self.width
    }

    pub fn height(&self) -> (h: u32)
        ensures
            h == self.spec_height(),
    {
        self.height
    }

    /// Derive the 16-bit luminance view: one perceptually weighted sample per
    /// pixel, in the same row-major order.
    pub fn to_luminance(&self) -> (lum: LuminanceView)
        requires
            self.wf(),
        ensures
            lum.wf(),
            lum.spec_width() == self.spec_width(),
            lum.spec_height() == self.spec_height(),
            lum.spec_samples() == luma_seq(self.spec_pixels(), self.area()),
    {
        let len: usize = self.pixels.len();
        let n: usize = len / 4;
        let mut samples: Vec<u16> = Vec::new();
        let mut i: usize = 0;
        while i < n
            invariant
                i <= n,
                n == self.area(),
                len == self.spec_pixels().len(),
                len == 4 * n,
                samples@.len() == i,
                forall|k: int|
                    0 <= k < i ==> samples@[k] == luma_spec(
                        self.spec_pixels()[4 * k],
                        self.spec_pixels()[4 * k + 1],
                        self.spec_pixels()[4 * k + 2],
                    ),
            decreases n - i,
        {
            let l: u16 = luma_of_rgb(
                self.pixels[4 * i],
                self.pixels[4 * i + 1],
                self.pixels[4 * i + 2],
            );
            samples.push(l);
            i += 1;
        }
        proof {
            lemma_area_positive(self.spec_width() as int, self.spec_height() as int);
            assert(samples@ =~= luma_seq(self.spec_pixels(), self.area()));
        }
        LuminanceView { width: self.width, height: self.height, samples }
    }

    /// Pass the image through to 8-bit RGBA form: every sample, alpha
    /// included, is narrowed by the rounding division `(c + 128) / 257`.
    /// Lossless for a source whose 16-bit samples were widened from 8-bit
    /// color.
    pub fn to_rgba8(&self) -> (buf: DisplayBuffer)
        requires
            self.wf(),
        ensures
            buf.wf(),
            buf.spec_width() == self.spec_width(),
            buf.spec_height() == self.spec_height(),
            buf.spec_data() == shrink8_seq(self.spec_pixels()),
    {
        let len: usize = self.pixels.len();
        let mut data: Vec<u8> = Vec::new();
        let mut j: usize = 0;
        while j < len
            invariant
                j <= len,
                len == self.spec_pixels().len(),
                data@.len() == j,
                forall|k: int|
                    0 <= k < j ==> data@[k] == ((self.spec_pixels()[k] + 128) / 257) as u8,
            decreases len - j,
        {
            data.push((((self.pixels[j] as u32) + 128) / 257) as u8);
            j += 1;
        }
        proof {
            assert(data@ =~= shrink8_seq(self.spec_pixels()));
        }
        DisplayBuffer { width: self.width, height: self.height, data }
    }

    /// The viewable grayscale rendering: the 16-bit luminance of each pixel,
    /// truncated to 8 bits by division by 256, replicated into R, G and B,
    /// with alpha at full opacity.
    pub fn to_display8(&self) -> (buf: DisplayBuffer)
        requires
            self.wf(),
        ensures
            buf.wf(),
            buf.spec_width() == self.spec_width(),
            buf.spec_height() == self.spec_height(),
            buf.spec_data() == gray8_seq(luma_seq(self.spec_pixels(), self.area())),
    {
        let lum = self.to_luminance();
        let n: usize = lum.samples.len();
        let mut data: Vec<u8> = Vec::new();
        let mut i: usize = 0;
        while i < n
            invariant
                i <= n,
                n == lum.spec_samples().len(),
                data@.len() == 4 * i,
                forall|k: int| 0 <= k < 4 * i ==> data@[k] == gray8_seq(lum.spec_samples())[k],
            decreases n - i,
        {
            let v: u8 = (lum.samples[i] / 256) as u8;
            data.push(v);
            data.push(v);
            data.push(v);
            data.push(255);
            i += 1;
        }
        proof {
            assert(data@ =~= gray8_seq(lum.spec_samples()));
        }
        DisplayBuffer { width: self.width, height: self.height, data }
    }
}

impl Clone for CanonicalImage {
    /// A clone keeps the dimensions and every sample.
    fn clone(&self) -> (res: Self)
        ensures
            res.spec_width() == self.spec_width(),
            res.spec_height() == self.spec_height(),
            res.spec_pixels() == self.spec_pixels(),
    {
        let pixels = self.pixels.clone();
        proof {
            assert(pixels@ =~= self.pixels@);
        }
        CanonicalImage { width: self.width, height: self.height, pixels }
    }
}

/// The 16-bit single-channel luminance grid derived from a canonical image:
/// same dimensions, one sample per pixel, row-major.
pub struct LuminanceView {
    width: u32,
    height: u32,
    samples: Vec<u16>,
}

impl LuminanceView {
    /// The grid width in pixels.
    pub closed spec fn spec_width(&self) -> u32 {
        self.width
    }

    /// The grid height in pixels.
    pub closed spec fn spec_height(&self) -> u32 {
        self.height
    }

    /// The flat sample storage, one 16-bit sample per pixel.
    pub closed spec fn spec_samples(&self) -> Seq<u16> {
        self.samples@
    }

    /// The pixel count.
    pub open spec fn area(&self) -> int {
        self.spec_width() * self.spec_height()
    }

    /// Well-formedness: positive dimensions matching the sample storage.
    pub open spec fn wf(&self) -> bool {
        &&& 0 < self.spec_width()
        &&& 0 < self.spec_height()
        &&& self.spec_samples().len() == self.area()
    }

    pub fn width(&self) -> (w: u32)
        ensures
            w == self.spec_width(),
    {
        self.width
    }

    pub fn height(&self) -> (h: u32)
        ensures
            h == self.spec_height(),
    {
        self.height
    }

    /// Build a luminance view from its dimensions and flat sample storage.
    pub fn from_parts(width: u32, height: u32, samples: Vec<u16>) -> (lum: LuminanceView)
        requires
            0 < width,
            0 < height,
            samples@.len() == width * height,
        ensures
            lum.wf(),
            lum.spec_width() == width,
            lum.spec_height() == height,
            lum.spec_samples() == samples@,
    {
        LuminanceView { width, height, samples }
    }

    /// The sample count.
    pub fn len(&self) -> (n: usize)
        ensures
            n == self.spec_samples().len(),
    {
        self.samples.len()
    }

    /// The sample at flat index `i`.
    pub fn sample(&self, i: usize) -> (s: u16)
        requires
            i < self.spec_samples().len(),
        ensures
            s == self.spec_samples()[i as int],
    {
        self.samples[i]
    }

    /// The largest sample of the grid.
    pub fn max_sample(&self) -> (m: u16)
        requires
            self.wf(),
        ensures
            exists|i: int| 0 <= i < self.spec_samples().len() && self.spec_samples()[i] == m,
            forall|i: int| 0 <= i < self.spec_samples().len() ==> self.spec_samples()[i] <= m,
    {
        proof {
            lemma_area_positive(self.spec_width() as int, self.spec_height() as int);
        }
        let n: usize = self.samples.len();
        let mut m: u16 = self.samples[0];
        let mut i: usize = 1;
        while i < n
            invariant
                1 <= i <= n,
                n == self.spec_samples().len(),
                exists|k: int| 0 <= k < i && self.spec_samples()[k] == m,
                forall|k: int| 0 <= k < i ==> self.spec_samples()[k] <= m,
            decreases n - i,
        {
            let s: u16 = self.samples[i];
            if s > m {
                m = s;
            }
            i += 1;
        }
        m
    }

    /// The smallest sample of the grid.
    pub fn min_sample(&self) -> (m: u16)
        requires
            self.wf(),
        ensures
            exists|i: int| 0 <= i < self.spec_samples().len() && self.spec_samples()[i] == m,
            forall|i: int| 0 <= i < self.spec_samples().len() ==> m <= self.spec_samples()[i],
    {
        proof {
            lemma_area_positive(self.spec_width() as int, self.spec_height() as int);
        }
        let n: usize = self.samples.len();
        let mut m: u16 = self.samples[0];
        let mut i: usize = 1;
        while i < n
            invariant
                1 <= i <= n,
                n == self.spec_samples().len(),
                exists|k: int| 0 <= k < i && self.spec_samples()[k] == m,
                forall|k: int| 0 <= k < i ==> m <= self.spec_samples()[k],
            decreases n - i,
        {
            let s: u16 = self.samples[i];
            if s < m {
                m = s;
            }
            i += 1;
        }
        m
    }
}

/// The 8-bit RGBA grid handed to the presentation layer: positive dimensions
/// and 4 samples per pixel, row-major.
pub struct DisplayBuffer {
    width: u32,
    height: u32,
    data: Vec<u8>,
}

impl DisplayBuffer {
    /// The buffer width in pixels.
    pub closed spec fn spec_width(&self) -> u32 {
        self.width
    }

    /// The buffer height in pixels.
    pub closed spec fn spec_height(&self) -> u32 {
        self.height
    }

    /// The flat 8-bit sample storage, 4 samples (R, G, B, A) per pixel.
    pub closed spec fn spec_data(&self) -> Seq<u8> {
        self.data@
    }

    /// The pixel count.
    pub open spec fn area(&self) -> int {
        self.spec_width() * self.spec_height()
    }

    /// Well-formedness: positive dimensions matching the sample storage.
    pub open spec fn wf(&self) -> bool {
        &&& 0 < self.spec_width()
        &&& 0 < self.spec_height()
        &&& self.spec_data().len() == 4 * self.area()
    }

    pub fn width(&self) -> (w: u32)
        ensures
            w == self.spec_width(),
    {
        self.width
    }

    pub fn height(&self) -> (h: u32)
        ensures
            h == self.spec_height(),
    {
        self.height
    }

    /// Assemble a display buffer from its dimensions and flat sample storage.
    pub fn from_parts(width: u32, height: u32, data: Vec<u8>) -> (buf: DisplayBuffer)
        requires
            0 < width,
            0 < height,
            data@.len() == 4 * (width * height),
        ensures
            buf.wf(),
            buf.spec_width() == width,
            buf.spec_height() == height,
            buf.spec_data() == data@,
    {
        DisplayBuffer { width, height, data }
    }

    /// The raw samples, for the presentation layer.
    pub fn data(&self) -> (d: &Vec<u8>)
        ensures
            d@ == self.spec_data(),
    {
        &self.data
    }

    /// Widen the buffer back to a canonical image: every 8-bit sample becomes
    /// the 16-bit sample 257 times it, so 0 stays 0 and 255 becomes 65535.
    pub fn to_canonical(&self) -> (img: CanonicalImage)
        requires
            self.wf(),
        ensures
            img.wf(),
            img.spec_width() == self.spec_width(),
            img.spec_height() == self.spec_height(),
            img.spec_pixels() == widen16_seq(self.spec_data()),
    {
        let len: usize = self.data.len();
        let mut pixels: Vec<u16> = Vec::new();
        let mut j: usize = 0;
        while j < len
            invariant
                j <= len,
                len == self.spec_data().len(),
                pixels@.len() == j,
                forall|k: int| 0 <= k < j ==> pixels@[k] == (257 * self.spec_data()[k]) as u16,
            decreases len - j,
        {
            pixels.push(257u16 * (self.data[j] as u16));
            j += 1;
        }
        proof {
            assert(pixels@ =~= widen16_seq(self.spec_data()));
        }
        CanonicalImage { width: self.width, height: self.height, pixels }
    }
}

} // verus!
