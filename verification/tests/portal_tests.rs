use screen_capture::error::CaptureError;
use screen_capture::model::{CaptureArea, CaptureRegion, CapturedImage, PixelFormat, Resolution};
use screen_capture::output::PngEncoder;
use screen_capture::backend::ImageEncoder;
use screen_capture::portal::{
    file_path_from_uri, file_path_outcome, finish_portal_capture, load_portal_image, portal_interactive,
};

#[test]
fn file_uri_is_converted_to_local_path() {
    let path = file_path_from_uri("file:///tmp/shot.png").expect("file uri");
    assert_eq!(path, String::from("/tmp/shot.png"));
}

#[test]
fn non_file_uri_is_rejected() {
    let error = file_path_from_uri("https://example.com/shot.png").expect_err("unsupported");
    assert!(error.describe().contains("non-file"));
}

#[test]
fn uri_messages_quote_the_uri() {
    let error = file_path_from_uri("https://example.com/shot.png").unwrap_err();
    assert_eq!(
        error.describe(),
        "unsupported operation: portal returned a non-file screenshot URI \"https://example.com/shot.png\"; only file-backed screenshots are supported in this MVP"
    );
    let error = file_path_from_uri("not a uri").unwrap_err();
    assert!(matches!(error, CaptureError::Backend { .. }));
    assert!(error.describe().starts_with("backend error: portal returned an invalid screenshot URI \"not a uri\": "));
    let decoded = file_path_from_uri("file:///tmp/my%20shot.png").unwrap();
    assert_eq!(decoded, "/tmp/my shot.png");
}

#[test]
fn url_outcomes_map_to_errors() {
    assert_eq!(file_path_outcome("u", Ok(Some("/p".into()))).unwrap(), "/p");
    let error = file_path_outcome("u", Err("relative URL without a base".into())).unwrap_err();
    assert_eq!(
        error.describe(),
        "backend error: portal returned an invalid screenshot URI \"u\": relative URL without a base"
    );
    assert!(matches!(file_path_outcome("u", Ok(None)), Err(CaptureError::Unsupported { .. })));
}

#[test]
fn only_interactive_requests_open_the_portal_dialog() {
    assert!(portal_interactive(CaptureArea::InteractiveRegion));
    assert!(!portal_interactive(CaptureArea::Fullscreen));
    assert!(!portal_interactive(CaptureArea::Region(CaptureRegion::new(0, 0, 1, 1).unwrap())));
}

#[test]
fn decoded_screenshot_round_trips_through_png() {
    let pixels: Vec<u8> = vec![10, 20, 30, 255, 40, 50, 60, 255, 70, 80, 90, 128, 1, 2, 3, 4, 5, 6, 7, 8, 9, 10, 11, 12];
    let image = CapturedImage::new(Resolution { width: 3, height: 2 }, PixelFormat::Rgba8, pixels).unwrap();
    let png = PngEncoder.encode(&image).unwrap();
    let loaded = load_portal_image(&png).expect("decodes");
    assert_eq!(loaded, image);
}

#[test]
fn undecodable_screenshot_is_a_backend_error() {
    let error = load_portal_image(b"not an image").unwrap_err();
    assert!(error.describe().starts_with("backend error: failed to decode portal screenshot image: "));
}

#[test]
fn portal_result_is_cropped_only_for_regions() {
    let image = CapturedImage::new(
        Resolution { width: 2, height: 1 },
        PixelFormat::Rgba8,
        vec![1, 1, 1, 1, 2, 2, 2, 2],
    )
    .unwrap();
    assert_eq!(finish_portal_capture(image.clone(), CaptureArea::Fullscreen).unwrap(), image);
    assert_eq!(finish_portal_capture(image.clone(), CaptureArea::InteractiveRegion).unwrap(), image);
    let cropped = finish_portal_capture(image, CaptureArea::Region(CaptureRegion::new(1, 0, 1, 1).unwrap())).unwrap();
    assert_eq!(cropped.pixels, vec![2, 2, 2, 2]);
}
