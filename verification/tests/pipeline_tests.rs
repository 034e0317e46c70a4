use image_process::canonical::CanonicalImage;
use image_process::canonical::DisplayBuffer;
use image_process::canonical::LuminanceView;
use image_process::canonical::luma_of_rgb;
use image_process::error::ErrorKind;
use image_process::panel::ImagePanelData;
use image_process::pipeline::ImageSlots;
use image_process::pipeline::ImageType;
use image_process::pipeline::Pipeline;
use image_process::pipeline::image_load;
use image_process::transform::ProcessType;
use image_process::transform::binarize_buffer;
use image_process::transform::average_buffer;
use image_process::transform::process_image;

/// Encode a small RGBA image as PNG bytes, as a file on disk would hold them.
fn png_bytes(width: u32, height: u32, pixels: &[[u8; 4]]) -> Vec<u8> {
    let mut img = image::RgbaImage::new(width, height);
    for y in 0..height {
        for x in 0..width {
            let p = pixels[(y * width + x) as usize];
            img.put_pixel(x, y, image::Rgba(p));
        }
    }
    let mut bytes: Vec<u8> = Vec::new();
    let mut cursor = std::io::Cursor::new(&mut bytes);
    img.write_to(&mut cursor, image::ImageOutputFormat::Png).unwrap();
    bytes
}

fn white_png(width: u32, height: u32) -> Vec<u8> {
    let n = (width * height) as usize;
    png_bytes(width, height, &vec![[255u8, 255, 255, 255]; n])
}

fn gray_image(width: u32, height: u32, lum: u16) -> CanonicalImage {
    let n = (width * height) as usize;
    let mut pixels: Vec<u16> = Vec::new();
    for _ in 0..n {
        pixels.extend_from_slice(&[lum, lum, lum, 65535]);
    }
    CanonicalImage::new(width, height, pixels).unwrap()
}

#[test]
fn luma_weighting_exact() {
    // 2126 * 65535 / 10000, 7152 * 65535 / 10000, 722 * 65535 / 10000
    assert_eq!(luma_of_rgb(65535, 0, 0), 13932);
    assert_eq!(luma_of_rgb(0, 65535, 0), 46870);
    assert_eq!(luma_of_rgb(0, 0, 65535), 4731);
    // a gray triple keeps its value
    assert_eq!(luma_of_rgb(511, 511, 511), 511);
    assert_eq!(luma_of_rgb(65535, 65535, 65535), 65535);
}

#[test]
fn display8_truncates_not_rounds() {
    // luminance 511 must map to display value 1 (511 div 256), not 2
    let img = gray_image(1, 1, 511);
    let buf = img.to_display8();
    assert_eq!(buf.data().as_slice(), &[1, 1, 1, 255]);
    // and 512 maps to 2
    let buf2 = gray_image(1, 1, 512).to_display8();
    assert_eq!(buf2.data().as_slice(), &[2, 2, 2, 255]);
}

#[test]
fn binarize_strict_threshold() {
    // luminance exactly 32767 maps to black; 32768 maps to white
    let lum = LuminanceView::from_parts(2, 1, vec![32767, 32768]);
    let buf = binarize_buffer(&lum);
    assert_eq!(buf.data().as_slice(), &[0, 0, 0, 255, 255, 255, 255, 255]);
}

#[test]
fn binarize_through_process_image() {
    let data = ImagePanelData { image: gray_image(1, 2, 40000) };
    let out = process_image(data, ProcessType::Binarization).unwrap();
    // white pixels widened back to full-scale 16-bit samples
    let rgba = out.to_rgba8_image_handle();
    assert_eq!(rgba.data().as_slice(), &[255, 255, 255, 255, 255, 255, 255, 255]);
    assert_eq!(out.get_max_image_value(), 65535);
}

#[test]
fn average_uniform_interior_and_border() {
    // uniform luminance 51000 on a 16x16 grid
    let lum = LuminanceView::from_parts(16, 16, vec![51000; 256]);
    let buf = average_buffer(&lum);
    let data = buf.data();
    // interior pixel (8, 8): full window, 51000 div 255 == 200
    let interior = 4 * (8 * 16 + 8);
    assert_eq!(data[interior], 200);
    assert_eq!(data[interior + 3], 255);
    // corner pixel (0, 0): only 6x6 window samples are in bounds, yet the
    // divisor stays 121: 36 * 51000 / 121 / 255 == 59 (border darkening)
    assert_eq!(data[0], 59);
}

#[test]
fn average_full_white_wraps() {
    // full-scale white: 65535 div 255 == 257, which wraps to 1 in 8 bits
    let lum = LuminanceView::from_parts(11, 11, vec![65535; 121]);
    let buf = average_buffer(&lum);
    // center pixel (5, 5) has the full window in bounds
    let center = 4 * (5 * 11 + 5);
    assert_eq!(buf.data()[center], 1);
}

#[test]
fn load_nonexistent_path_not_found() {
    let mut slots = ImageSlots::new();
    let r = image_load(&mut slots, None);
    let e = r.unwrap_err();
    assert_eq!(e.kind, ErrorKind::NotFound);
    assert_eq!(e.message, "file not found");
    assert!(!slots.contains_key(ImageType::Original));
    assert!(!slots.contains_key(ImageType::Grayscale));
    assert!(!slots.contains_key(ImageType::Processed));
}

#[test]
fn load_corrupt_bytes_decode_error_clears_previous() {
    let mut slots = ImageSlots::new();
    // a successful load first
    let good = white_png(2, 2);
    let r = image_load(&mut slots, Some(&good));
    assert_eq!(r.unwrap(), "OK");
    assert!(slots.contains_key(ImageType::Original));
    assert!(slots.contains_key(ImageType::Grayscale));
    // then a corrupt file: the whole mapping is cleared
    let bad = b"this is not an image";
    let e = image_load(&mut slots, Some(&bad[..])).unwrap_err();
    assert_eq!(e.kind, ErrorKind::DecodeError);
    assert!(!e.message.is_empty());
    assert!(!slots.contains_key(ImageType::Original));
    assert!(!slots.contains_key(ImageType::Grayscale));
    assert!(!slots.contains_key(ImageType::Processed));
}

#[test]
fn transform_without_load_rejected() {
    let mut pipeline = Pipeline::new();
    let e = pipeline.run_transform(ProcessType::Binarization).unwrap_err();
    assert_eq!(e.kind, ErrorKind::NoImageLoaded);
    assert!(pipeline.stats().is_none());
}

#[test]
fn identity_round_trip_matches_original() {
    let mut pipeline = Pipeline::new();
    let png = png_bytes(
        2,
        2,
        &[[255, 0, 0, 255], [0, 255, 0, 255], [0, 0, 255, 255], [7, 80, 200, 255]],
    );
    pipeline.load(Some(&png)).unwrap();
    pipeline.run_transform(ProcessType::NoProcess).unwrap();
    let original = pipeline.slots().get(ImageType::Original).unwrap().to_rgba8_image_handle();
    let processed = pipeline.slots().get(ImageType::Processed).unwrap().to_rgba8_image_handle();
    assert_eq!(original.data(), processed.data());
    // and the 8-bit RGBA conversion is lossless for the 8-bit color source
    assert_eq!(
        processed.data().as_slice(),
        &[255, 0, 0, 255, 0, 255, 0, 255, 0, 0, 255, 255, 7, 80, 200, 255],
    );
}

#[test]
fn same_transform_twice_bit_identical() {
    let mut pipeline = Pipeline::new();
    let png = png_bytes(
        3,
        3,
        &[
            [255, 0, 0, 255],
            [0, 255, 0, 255],
            [0, 0, 255, 255],
            [10, 20, 30, 255],
            [200, 100, 50, 255],
            [0, 0, 0, 255],
            [255, 255, 255, 255],
            [90, 90, 90, 255],
            [1, 2, 3, 255],
        ],
    );
    pipeline.load(Some(&png)).unwrap();
    let st1 = pipeline.run_transform(ProcessType::ConvolveFilterAVG).unwrap();
    let first: Vec<u8> =
        pipeline.slots().get(ImageType::Processed).unwrap().to_handle().data().clone();
    let st2 = pipeline.run_transform(ProcessType::ConvolveFilterAVG).unwrap();
    let second: Vec<u8> =
        pipeline.slots().get(ImageType::Processed).unwrap().to_handle().data().clone();
    assert_eq!(first, second);
    assert_eq!(st1, st2);
}

#[test]
fn end_to_end_binarize_white() {
    // load a 4x4 all-white 8-bit image, run Binarize: all pixels opaque
    // white, and both luminance extremes at full-scale 16-bit white
    let mut pipeline = Pipeline::new();
    let png = white_png(4, 4);
    pipeline.load(Some(&png)).unwrap();
    let st = pipeline.run_transform(ProcessType::Binarization).unwrap();
    assert_eq!(st.width, 4);
    assert_eq!(st.height, 4);
    assert_eq!(st.max_value, 65535);
    assert_eq!(st.min_value, 65535);
    assert_eq!(st.process_type, ProcessType::Binarization);
    let processed = pipeline.slots().get(ImageType::Processed).unwrap().to_rgba8_image_handle();
    assert_eq!(processed.data().as_slice(), &[255u8; 64][..]);
    assert_eq!(pipeline.stats().unwrap(), st);
}

#[test]
fn process_type_labels() {
    assert_eq!(ProcessType::NoProcess.display_name(), "None");
    assert_eq!(ProcessType::Binarization.display_name(), "Binarize");
    assert_eq!(ProcessType::ConvolveFilterAVG.display_name(), "AVG filter");
    assert_eq!(ProcessType::default(), ProcessType::NoProcess);
    assert_eq!(
        ProcessType::all(),
        vec![ProcessType::NoProcess, ProcessType::Binarization, ProcessType::ConvolveFilterAVG],
    );
}

#[test]
fn canonical_image_rejects_bad_shapes() {
    assert!(CanonicalImage::new(0, 4, vec![0; 0]).is_none());
    assert!(CanonicalImage::new(4, 0, vec![0; 16]).is_none());
    assert!(CanonicalImage::new(2, 2, vec![0; 15]).is_none());
    assert!(CanonicalImage::new(2, 2, vec![0; 16]).is_some());
}

#[test]
fn display_widen_round_trip() {
    let buf = DisplayBuffer::from_parts(1, 1, vec![0, 128, 255, 255]);
    let img = buf.to_canonical();
    let back = img.to_rgba8();
    assert_eq!(back.data().as_slice(), &[0, 128, 255, 255]);
}

#[test]
fn stats_on_constructed_image() {
    let mut pixels: Vec<u16> = Vec::new();
    pixels.extend_from_slice(&[100, 100, 100, 65535]);
    pixels.extend_from_slice(&[60000, 60000, 60000, 65535]);
    let img = CanonicalImage::new(2, 1, pixels).unwrap();
    let data = ImagePanelData { image: img };
    assert_eq!(data.get_image_width(), 2);
    assert_eq!(data.get_image_height(), 1);
    assert_eq!(data.get_max_image_value(), 60000);
    assert_eq!(data.get_min_image_value(), 100);
}

#[test]
fn decoded_content_reaches_the_pipeline() {
    // the decoder must hand over the real samples: a mid-gray source pixel
    // arrives widened to 16 bits (128 * 257), not as some placeholder
    let mut slots = ImageSlots::new();
    let png = png_bytes(1, 1, &[[128, 128, 128, 255]]);
    image_load(&mut slots, Some(&png)).unwrap();
    let gray = slots.get(ImageType::Grayscale).unwrap();
    assert_eq!(gray.get_max_image_value(), 128 * 257);
    assert_eq!(gray.get_min_image_value(), 128 * 257);
}
