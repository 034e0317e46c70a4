//! The transform engine: the closed set of pixel transforms (identity,
//! threshold binarization, 11x11 averaging filter), each a pure function from
//! an image to a new one, with exact pixel-level contracts.

use vstd::prelude::*;
use crate::canonical::CanonicalImage;
use crate::canonical::DisplayBuffer;
use crate::canonical::LuminanceView;
use crate::canonical::img_eq;
use crate::canonical::lemma_grid_index;
use crate::canonical::luma_seq;
use crate::canonical::shrink8_seq;
use crate::canonical::widen16_seq;
use crate::error::ImageProcessError;
use crate::panel::ImagePanelData;

verus! {

broadcast use vstd::string::to_string_from_display_ensures_for_str;

/// The binarization threshold: half of the 16-bit sample range.
pub const THRESHOLD: u16 = 65535 / 2;

/// The largest 8-bit sample: opaque white, full opacity.
pub const MAX_COLOR: u8 = 255;

/// The side of the square averaging window, in pixels.
pub const FILTER_SIZE: usize = 11;

/// The fixed divisor of the averaging filter: the full window area, used for
/// every pixel, clipped border windows included.
pub const FILTER_AREA: u32 = 121;

/// The selectable pixel transform; a closed enumeration.
#[derive(Debug, Clone, Copy, PartialEq, Eq, Default)]
pub enum ProcessType {
    /// Pass the image through unchanged.
    #[default]
    NoProcess,
    /// Map each pixel to opaque white or black by its luminance.
    Binarization,
    /// Replace each pixel by the 11x11 windowed average of its luminance.
    ConvolveFilterAVG,
}

impl ProcessType {
    /// Every selectable transform, in presentation order.
    pub fn all() -> (r: Vec<ProcessType>)
        ensures
            r@.len() == 3,
            r@[0] == ProcessType::NoProcess,
            r@[1] == ProcessType::Binarization,
            r@[2] == ProcessType::ConvolveFilterAVG,
    {
        let mut r: Vec<ProcessType> = Vec::new();
        r.push(ProcessType::NoProcess);
        r.push(ProcessType::Binarization);
        r.push(ProcessType::ConvolveFilterAVG);
        r
    }

    /// The transform's display label.
    pub fn display_name(&self) -> (r: String)
        ensures
            self is NoProcess ==> r@ == "None"@,
            self is Binarization ==> r@ == "Binarize"@,
            self is ConvolveFilterAVG ==> r@ == "AVG filter"@,
    {
        match self {
            ProcessType::NoProcess => "None".to_string(),
            ProcessType::Binarization => "Binarize".to_string(),
            ProcessType::ConvolveFilterAVG => "AVG filter".to_string(),
        }
    }
}

/// The binarized display value of one luminance sample: white strictly above
/// the threshold, black otherwise.
pub open spec fn bin_val(l: u16) -> u8 {
    if l > THRESHOLD {
        MAX_COLOR
    } else {
        0u8
    }
}

/// The binarized 8-bit RGBA rendering of a luminance sequence: each color
/// channel is the binarized value, alpha is full opacity.
pub open spec fn binarize_seq(lum: Seq<u16>) -> Seq<u8> {
    Seq::new(
        (4 * lum.len()) as nat,
        |j: int| if j % 4 == 3 {
            MAX_COLOR
        } else {
            bin_val(lum[j / 4])
        },
    )
}

/// The luminance sample of grid `s` (width `w`, height `h`) at `(x, y)`, or 0
/// when the coordinate lies outside the grid: out-of-bounds window offsets
/// contribute nothing.
pub open spec fn lum_at(s: Seq<u16>, w: int, h: int, x: int, y: int) -> int {
    if 0 <= x < w && 0 <= y < h {
        s[y * w + x] as int
    } else {
        0
    }
}

/// The sum of the first `k` window columns of the row `y`, for a window
/// centered on column `x`: the samples at `x - 5 + t` for `t < k`, clipped.
pub open spec fn row_sum(s: Seq<u16>, w: int, h: int, x: int, y: int, k: nat) -> int
    decreases k,
{
    if k == 0 {
        0
    } else {
        row_sum(s, w, h, x, y, (k - 1) as nat) + lum_at(s, w, h, x - 5 + (k - 1), y)
    }
}

/// The sum of the first `k` window rows of the window centered at `(x, y)`:
/// the full rows at `y - 5 + t` for `t < k`, clipped at the grid borders.
pub open spec fn win_sum(s: Seq<u16>, w: int, h: int, x: int, y: int, k: nat) -> int
    decreases k,
{
    if k == 0 {
        0
    } else {
        win_sum(s, w, h, x, y, (k - 1) as nat) + row_sum(s, w, h, x, y - 5 + (k - 1), 11)
    }
}

/// A clipped window row of `k` samples sums to between 0 and `k * 65535`.
pub proof fn lemma_row_sum_bounds(s: Seq<u16>, w: int, h: int, x: int, y: int, k: nat)
    ensures
        0 <= row_sum(s, w, h, x, y, k) <= k * 65535,
    decreases k,
{
    if k > 0 {
        lemma_row_sum_bounds(s, w, h, x, y, (k - 1) as nat);
    }
}

/// A clipped window of `k` full rows sums to between 0 and `k * 720885`
/// (720885 being one full row of largest samples).
pub proof fn lemma_win_sum_bounds(s: Seq<u16>, w: int, h: int, x: int, y: int, k: nat)
    ensures
        0 <= win_sum(s, w, h, x, y, k) <= k * 720885,
    decreases k,
{
    if k > 0 {
        lemma_win_sum_bounds(s, w, h, x, y, (k - 1) as nat);
        lemma_row_sum_bounds(s, w, h, x, y - 5 + (k - 1), 11);
    }
}

/// The averaged display value at `(x, y)`: the clipped window sum divided by
/// the full window area 121, then narrowed by division by 255, the quotient
/// taken modulo 256 to fit 8 bits.
pub open spec fn avg_val(s: Seq<u16>, w: int, h: int, x: int, y: int) -> u8 {
    (((win_sum(s, w, h, x, y, 11) / 121) / 255) % 256) as u8
}

/// The averaged 8-bit RGBA rendering of a luminance grid: each color channel
/// carries the windowed average, alpha is full opacity.
pub open spec fn avg_seq(s: Seq<u16>, w: int, h: int) -> Seq<u8> {
    Seq::new(
        (4 * s.len()) as nat,
        |j: int| if j % 4 == 3 {
            MAX_COLOR
        } else {
            avg_val(s, w, h, (j / 4) % w, (j / 4) / w)
        },
    )
}

/// Row-major flattening inverts cleanly: index `p` of a `w`-wide grid of `n`
/// rows lies in row `p / w` at column `p % w`.
proof fn lemma_flat_divmod(p: int, w: int, h: int)
    requires
        0 < w,
        0 <= p < w * h,
    ensures
        0 <= p % w < w,
        0 <= p / w < h,
        p == (p / w) * w + (p % w),
{
    assert(0 <= p % w < w && 0 <= p / w < h && p == (p / w) * w + (p % w)) by (nonlinear_arith)
        requires
            0 < w,
            0 <= p < w * h,
    ;
}

/// Map each luminance sample to opaque black or white by the strict
/// threshold.
pub fn binarize_buffer(lum: &LuminanceView) -> (buf: DisplayBuffer)
    requires
        lum.wf(),
    ensures
        buf.wf(),
        buf.spec_width() == lum.spec_width(),
        buf.spec_height() == lum.spec_height(),
        buf.spec_data() == binarize_seq(lum.spec_samples()),
{
    let n: usize = lum.len();
    let mut data: Vec<u8> = Vec::new();
    let mut i: usize = 0;
    while i < n
        invariant
            i <= n,
            n == lum.spec_samples().len(),
            data@.len() == 4 * i,
            forall|j: int| 0 <= j < 4 * i ==> data@[j] == binarize_seq(lum.spec_samples())[j],
        decreases n - i,
    {
        let s: u16 = lum.sample(i);
        let v: u8 = if s > THRESHOLD {
            MAX_COLOR
        } else {
            0
        };
        data.push(v);
        data.push(v);
        data.push(v);
        data.push(MAX_COLOR);
        i += 1;
    }
    proof {
        assert(data@ =~= binarize_seq(lum.spec_samples()));
    }
    DisplayBuffer::from_parts(lum.width(), lum.height(), data)
}

/// Replace each pixel by the mean of the 11x11 luminance window centered on
/// it: out-of-bounds offsets are skipped, yet the divisor is always the full
/// window area 121, so border pixels come out systematically darker.
pub fn average_buffer(lum: &LuminanceView) -> (buf: DisplayBuffer)
    requires
        lum.wf(),
    ensures
        buf.wf(),
        buf.spec_width() == lum.spec_width(),
        buf.spec_height() == lum.spec_height(),
        buf.spec_data() == avg_seq(
            lum.spec_samples(),
            lum.spec_width() as int,
            lum.spec_height() as int,
        ),
{
    let w: usize = lum.width() as usize;
    let h: usize = lum.height() as usize;
    let n: usize = lum.len();
    let ghost s: Seq<u16> = lum.spec_samples();
    let mut data: Vec<u8> = Vec::new();
    let mut p: usize = 0;
    while p < n
        invariant
            p <= n,
            0 < w,
            0 < h,
            w == lum.spec_width(),
            h == lum.spec_height(),
            s == lum.spec_samples(),
            n == s.len(),
            n == w * h,
            data@.len() == 4 * p,
            forall|j: int| 0 <= j < 4 * p ==> data@[j] == avg_seq(s, w as int, h as int)[j],
        decreases n - p,
    {
        let x: usize = p % w;
        let y: usize = p / w;
        proof {
            lemma_flat_divmod(p as int, w as int, h as int);
        }
        let mut sum: u32 = 0;
        let mut dy: usize = 0;
        while dy < FILTER_SIZE
            invariant
                dy <= 11,
                0 < w,
                0 < h,
                w == lum.spec_width(),
                h == lum.spec_height(),
                s == lum.spec_samples(),
                n == s.len(),
                n == w * h,
                x < w,
                y < h,
                sum == win_sum(s, w as int, h as int, x as int, y as int, dy as nat),
            decreases 11 - dy,
        {
            let mut dx: usize = 0;
            while dx < FILTER_SIZE
                invariant
                    dx <= 11,
                    dy < 11,
                    0 < w,
                    0 < h,
                    w == lum.spec_width(),
                    h == lum.spec_height(),
                    s == lum.spec_samples(),
                    n == s.len(),
                    n == w * h,
                    x < w,
                    y < h,
                    sum == win_sum(s, w as int, h as int, x as int, y as int, dy as nat)
                        + row_sum(s, w as int, h as int, x as int, y - 5 + dy, dx as nat),
                decreases 11 - dx,
            {
                proof {
                    lemma_win_sum_bounds(s, w as int, h as int, x as int, y as int, dy as nat);
                    lemma_row_sum_bounds(
                        s,
                        w as int,
                        h as int,
                        x as int,
                        y - 5 + dy,
                        dx as nat,
                    );
                }
                let fx: i64 = x as i64 + dx as i64 - 5;
                let fy: i64 = y as i64 + dy as i64 - 5;
                if 0 <= fx && fx < w as i64 && 0 <= fy && fy < h as i64 {
                    proof {
                        lemma_grid_index(fx as int, fy as int, w as int, h as int);
                    }
                    let idx: usize = (fy as usize) * w + (fx as usize);
                    sum = sum + (lum.sample(idx) as u32);
                }
                dx += 1;
            }
            dy += 1;
        }
        proof {
            lemma_win_sum_bounds(s, w as int, h as int, x as int, y as int, 11);
        }
        let mean: u32 = sum / FILTER_AREA;
        let v: u8 = ((mean / 255) % 256) as u8;
        data.push(v);
        data.push(v);
        data.push(v);
        data.push(MAX_COLOR);
        proof {
            assert(v == avg_val(s, w as int, h as int, x as int, y as int));
            assert forall|j: int| 4 * p <= j < 4 * (p + 1) implies data@[j] == avg_seq(
                s,
                w as int,
                h as int,
            )[j] by {
                assert(j / 4 == p as int);
                assert((j / 4) % (w as int) == x as int);
                assert((j / 4) / (w as int) == y as int);
                if j % 4 == 3 {
                    assert(data@[j] == MAX_COLOR);
                } else {
                    assert(data@[j] == v);
                }
            }
        }
        p += 1;
    }
    proof {
        assert(data@ =~= avg_seq(s, lum.spec_width() as int, lum.spec_height() as int));
    }
    DisplayBuffer::from_parts(lum.width(), lum.height(), data)
}

/// Every transform's exact pixel-level effect: the output is well formed,
/// keeps the input's dimensions, and holds exactly the samples the selected
/// transform prescribes.
pub open spec fn transform_rel(
    kind: ProcessType,
    input: CanonicalImage,
    out: CanonicalImage,
) -> bool {
    &&& out.wf()
    &&& out.spec_width() == input.spec_width()
    &&& out.spec_height() == input.spec_height()
    &&& match kind {
        ProcessType::NoProcess => out.spec_pixels() == input.spec_pixels(),
        ProcessType::Binarization => out.spec_pixels() == widen16_seq(
            binarize_seq(luma_seq(input.spec_pixels(), input.area())),
        ),
        ProcessType::ConvolveFilterAVG => out.spec_pixels() == widen16_seq(
            avg_seq(
                luma_seq(input.spec_pixels(), input.area()),
                input.spec_width() as int,
                input.spec_height() as int,
            ),
        ),
    }
}

/// Binarize the image's luminance into an opaque black-and-white image.
pub fn binarize_image(data: &ImagePanelData) -> (r: Result<ImagePanelData, ImageProcessError>)
    requires
        data.wf(),
    ensures
        r is Ok,
        r matches Ok(out) ==> out.wf() && transform_rel(
            ProcessType::Binarization,
            data.image,
            out.image,
        ),
{
    let lum = data.image.to_luminance();
    let buf = binarize_buffer(&lum);
    let img = buf.to_canonical();
    Ok(ImagePanelData { image: img })
}

/// Blur the image by the 11x11 luminance averaging filter.
pub fn convolve_filter_avg(data: &ImagePanelData) -> (r: Result<
    ImagePanelData,
    ImageProcessError,
>)
    requires
        data.wf(),
    ensures
        r is Ok,
        r matches Ok(out) ==> out.wf() && transform_rel(
            ProcessType::ConvolveFilterAVG,
            data.image,
            out.image,
        ),
{
    let lum = data.image.to_luminance();
    let buf = average_buffer(&lum);
    let img = buf.to_canonical();
    Ok(ImagePanelData { image: img })
}

/// Pass the image through unchanged.
pub fn process_none(data: &ImagePanelData) -> (r: Result<ImagePanelData, ImageProcessError>)
    requires
        data.wf(),
    ensures
        r is Ok,
        r matches Ok(out) ==> out.wf() && transform_rel(ProcessType::NoProcess, data.image, out.image),
{
    Ok(data.clone())
}

/// Apply the selected transform to the held image. Every transform is total:
/// on a well-formed image the result is always delivered.
pub fn process_image(image_panel_data: ImagePanelData, process_type: ProcessType) -> (r: Result<
    ImagePanelData,
    ImageProcessError,
>)
    requires
        image_panel_data.wf(),
    ensures
        r is Ok,
        r matches Ok(out) ==> out.wf() && transform_rel(
            process_type,
            image_panel_data.image,
            out.image,
        ),
{
    match process_type {
        ProcessType::Binarization => binarize_image(&image_panel_data),
        ProcessType::ConvolveFilterAVG => convolve_filter_avg(&image_panel_data),
        ProcessType::NoProcess => process_none(&image_panel_data),
    }
}

/// Law: a transform's output is a function of the selected kind and the
/// input pixels alone. Two runs of the same kind against pixel-identical
/// inputs yield pixel-identical outputs — running a transform twice on the
/// same loaded image gives bit-identical results.
pub proof fn lemma_transform_deterministic(
    kind: ProcessType,
    input1: CanonicalImage,
    input2: CanonicalImage,
    out1: CanonicalImage,
    out2: CanonicalImage,
)
    requires
        img_eq(input1, input2),
        transform_rel(kind, input1, out1),
        transform_rel(kind, input2, out2),
    ensures
        img_eq(out1, out2),
{
}

/// Law: the identity transform leaves the image pixel-identical to its
/// input, so its 8-bit RGBA rendering equals the rendering of the original.
pub proof fn lemma_identity_transform(input: CanonicalImage, out: CanonicalImage)
    requires
        transform_rel(ProcessType::NoProcess, input, out),
    ensures
        img_eq(out, input),
        shrink8_seq(out.spec_pixels()) == shrink8_seq(input.spec_pixels()),
{
}

/// In a uniform grid every in-bounds sample equals the constant, so a fully
/// in-bounds window row of `k` samples sums to `k` times it.
proof fn lemma_row_sum_uniform(s: Seq<u16>, w: int, h: int, x: int, y: int, l: u16, k: nat)
    requires
        s.len() == w * h,
        forall|i: int| 0 <= i < s.len() ==> s[i] == l,
        5 <= x && x + 5 < w,
        0 <= y < h,
        k <= 11,
    ensures
        row_sum(s, w, h, x, y, k) == k * (l as int),
    decreases k,
{
    if k == 0 {
        assert(k * (l as int) == 0) by (nonlinear_arith)
            requires
                k == 0,
        ;
    } else {
        lemma_row_sum_uniform(s, w, h, x, y, l, (k - 1) as nat);
        let xx = x - 5 + (k - 1);
        lemma_grid_index(xx, y, w, h);
        assert(lum_at(s, w, h, xx, y) == l as int);
        assert(((k - 1) as nat) * (l as int) + (l as int) == k * (l as int)) by (nonlinear_arith)
            requires
                k > 0,
        ;
    }
}

/// In a uniform grid a fully in-bounds window of `k` full rows sums to
/// `k * 11` times the constant.
proof fn lemma_win_sum_uniform(s: Seq<u16>, w: int, h: int, x: int, y: int, l: u16, k: nat)
    requires
        s.len() == w * h,
        forall|i: int| 0 <= i < s.len() ==> s[i] == l,
        5 <= x && x + 5 < w,
        5 <= y && y + 5 < h,
        k <= 11,
    ensures
        win_sum(s, w, h, x, y, k) == (k * 11) * (l as int),
    decreases k,
{
    if k == 0 {
        assert((k * 11) * (l as int) == 0) by (nonlinear_arith)
            requires
                k == 0,
        ;
    } else {
        lemma_win_sum_uniform(s, w, h, x, y, l, (k - 1) as nat);
        lemma_row_sum_uniform(s, w, h, x, y - 5 + (k - 1), l, 11);
        assert(((((k - 1) as nat) * 11) * (l as int)) + 11 * (l as int) == (k * 11) * (l as int))
            by (nonlinear_arith)
            requires
                k > 0,
        ;
    }
}

/// Law: the averaging filter on a uniform luminance grid yields, at every
/// pixel whose full 11x11 window lies inside the grid, exactly the constant
/// luminance divided by 255. (At a border pixel the clipped window is summed
/// but still divided by the full area 121, which yields a smaller value; and
/// a constant of 65280 or more wraps past the 8-bit range; both therefore
/// stay outside this statement.)
pub proof fn lemma_average_uniform(s: Seq<u16>, w: int, h: int, x: int, y: int, l: u16)
    requires
        s.len() == w * h,
        forall|i: int| 0 <= i < s.len() ==> s[i] == l,
        5 <= x && x + 5 < w,
        5 <= y && y + 5 < h,
        l < 65280,
    ensures
        avg_val(s, w, h, x, y) as int == (l as int) / 255,
{
    lemma_win_sum_uniform(s, w, h, x, y, l, 11);
    assert(win_sum(s, w, h, x, y, 11) == 121 * (l as int));
    assert((121 * (l as int)) / 121 == l as int) by (nonlinear_arith);
}

} // verus!
