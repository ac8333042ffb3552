use screen_capture::error::CaptureError;
use screen_capture::model::{
    CaptureArea, CaptureRegion, CaptureRequest, CapturedImage, ImageFormat, PixelFormat, Resolution,
    SaveConflictStrategy, SaveOptions,
};

fn two_by_two() -> CapturedImage {
    CapturedImage::new(
        Resolution { width: 2, height: 2 },
        PixelFormat::Rgba8,
        vec![1, 0, 0, 255, 2, 0, 0, 255, 3, 0, 0, 255, 4, 0, 0, 255],
    )
    .expect("image")
}

#[test]
fn captured_image_rejects_invalid_buffer_size() {
    let result = CapturedImage::new(Resolution { width: 2, height: 2 }, PixelFormat::Rgba8, vec![0; 15]);

    assert!(result.is_err());
}

#[test]
fn fullscreen_request_uses_fullscreen_area() {
    assert_eq!(CaptureRequest::fullscreen().area, CaptureArea::Fullscreen);
}

#[test]
fn save_options_preserve_path_and_format() {
    let options = SaveOptions::new(ImageFormat::Png, "shot.png");
    assert_eq!(options.format, ImageFormat::Png);
    assert_eq!(options.output_path, String::from("shot.png"));
    assert_eq!(options.conflict_strategy, SaveConflictStrategy::Rename);
}

#[test]
fn region_request_uses_region_area() {
    let region = CaptureRegion::new(10, 20, 30, 40).expect("region");
    assert_eq!(CaptureRequest::region(region).area, CaptureArea::Region(region));
}

#[test]
fn captured_image_crop_returns_sub_region() {
    let image = two_by_two();

    let cropped = image.crop(CaptureRegion::new(1, 0, 1, 2).expect("region")).expect("crop");

    assert_eq!(cropped.resolution.width, 1);
    assert_eq!(cropped.resolution.height, 2);
    assert_eq!(cropped.pixels, vec![2, 0, 0, 255, 4, 0, 0, 255]);
}

#[test]
fn invalid_buffer_error_reports_expected_and_actual_sizes() {
    let error = CapturedImage::new(Resolution { width: 2, height: 2 }, PixelFormat::Rgba8, vec![0; 15])
        .expect_err("short buffer");
    match &error {
        CaptureError::InvalidImageBuffer { expected, actual } => {
            assert_eq!(*expected, 16);
            assert_eq!(*actual, 15);
        }
        other => panic!("unexpected error {other:?}"),
    }
    assert_eq!(error.describe(), "invalid image buffer: expected 16 bytes, got 15");
}

#[test]
fn zero_sized_region_is_rejected() {
    let error = CaptureRegion::new(0, 0, 0, 5).expect_err("zero width");
    assert_eq!(
        error.describe(),
        "invalid capture request: capture region width and height must be greater than zero"
    );
    assert!(CaptureRegion::new(0, 0, 5, 0).is_err());
}

#[test]
fn fits_within_compares_exact_edges() {
    let screen = Resolution { width: 100, height: 50 };
    assert!(CaptureRegion::new(90, 40, 10, 10).unwrap().fits_within(screen));
    assert!(!CaptureRegion::new(91, 40, 10, 10).unwrap().fits_within(screen));
    assert!(!CaptureRegion::new(u32::MAX, 0, 1, 1).unwrap().fits_within(screen));
    let widest = Resolution { width: u32::MAX, height: 1 };
    assert!(!CaptureRegion::new(u32::MAX, 0, 1, 1).unwrap().fits_within(widest));
    assert!(CaptureRegion::new(u32::MAX - 1, 0, 1, 1).unwrap().fits_within(widest));
    assert!(!CaptureRegion::new(0, u32::MAX, 1, 1).unwrap().fits_within(Resolution { width: 1, height: u32::MAX }));
}

#[test]
fn crop_outside_the_image_names_region_and_size() {
    let image = two_by_two();
    let error = image.crop(CaptureRegion::new(1, 1, 2, 2).unwrap()).expect_err("outside");
    assert_eq!(
        error.describe(),
        "invalid capture request: capture region (1, 1, 2, 2) is outside image bounds 2x2"
    );
}

#[test]
fn crop_to_full_extent_keeps_pixels() {
    let image = two_by_two();
    let full = image.crop(CaptureRegion::new(0, 0, 2, 2).unwrap()).expect("full crop");
    assert_eq!(full, image);
}

#[test]
fn crop_pixel_comes_from_offset_source_pixel() {
    let pixels: Vec<u8> = (0u8..36).collect();
    let image = CapturedImage::new(Resolution { width: 3, height: 3 }, PixelFormat::Rgba8, pixels).unwrap();
    let cropped = image.crop(CaptureRegion::new(1, 1, 2, 2).unwrap()).unwrap();
    // pixel (i, j) of the crop is pixel (1 + i, 1 + j) of the source
    for j in 0..2usize {
        for i in 0..2usize {
            for c in 0..4usize {
                let got = cropped.pixels[(j * 2 + i) * 4 + c];
                let want = image.pixels[((1 + j) * 3 + (1 + i)) * 4 + c];
                assert_eq!(got, want);
            }
        }
    }
}

#[test]
fn can_crop_accepts_regions_inside_the_image() {
    let image = two_by_two();
    assert!(image.can_crop(CaptureRegion::new(0, 0, 2, 2).unwrap()));
    assert!(image.can_crop(CaptureRegion::new(5, 5, 2, 2).unwrap()));
}

#[test]
fn pixel_sizes_and_extensions() {
    assert_eq!(PixelFormat::Rgba8.bytes_per_pixel(), 4);
    assert_eq!(ImageFormat::Png.file_extension(), "png");
    assert_eq!(Resolution { width: 7, height: 3 }.pixel_count(), 21);
}

#[test]
fn defaults_match_a_plain_capture() {
    assert_eq!(SaveConflictStrategy::default(), SaveConflictStrategy::Rename);
    assert_eq!(CaptureArea::default(), CaptureArea::Fullscreen);
    assert_eq!(CaptureRequest::default().area, CaptureArea::Fullscreen);
    assert_eq!(CaptureRequest::interactive_region().area, CaptureArea::InteractiveRegion);
    let options =
        SaveOptions::with_conflict_strategy(ImageFormat::Png, "a/b.png", SaveConflictStrategy::Overwrite);
    assert_eq!(options.output_path, "a/b.png");
    assert_eq!(options.conflict_strategy, SaveConflictStrategy::Overwrite);
}

#[test]
fn error_descriptions_name_their_kind() {
    let cases = [
        (CaptureError::Unsupported { message: "m".into() }, "unsupported operation: m"),
        (CaptureError::BackendUnavailable { message: "m".into() }, "backend unavailable: m"),
        (CaptureError::InvalidRequest { message: "m".into() }, "invalid capture request: m"),
        (CaptureError::Cancelled { message: "m".into() }, "capture cancelled: m"),
        (CaptureError::InvalidOutputPath { path: "a b.png".into() }, "invalid output path: \"a b.png\""),
        (CaptureError::EmptyImage, "captured image is empty"),
        (CaptureError::InvalidImageBuffer { expected: 1024, actual: 0 }, "invalid image buffer: expected 1024 bytes, got 0"),
        (CaptureError::Backend { message: "m".into() }, "backend error: m"),
        (CaptureError::Encoding { message: "m".into() }, "encoding error: m"),
        (CaptureError::Output { message: "m".into() }, "output error: m"),
    ];
    for (error, text) in cases {
        assert_eq!(error.describe(), text);
    }
}

#[test]
fn cropping_a_crop_is_one_crop() {
    let pixels: Vec<u8> = (0u8..100).collect();
    let image = CapturedImage::new(Resolution { width: 5, height: 5 }, PixelFormat::Rgba8, pixels).unwrap();
    let outer = CaptureRegion::new(1, 1, 4, 3).unwrap();
    let inner = CaptureRegion::new(2, 1, 2, 2).unwrap();
    let twice = image.crop(outer).unwrap().crop(inner).unwrap();
    let once = image.crop(CaptureRegion::new(3, 2, 2, 2).unwrap()).unwrap();
    assert_eq!(twice, once);
}
