use std::path::Path;

use screen_capture::backend::ImageEncoder;
use screen_capture::editor::{default_font_path, encode_annotated_png, load_editor_image, EditorBootstrap, EditorImageError};
use screen_capture::output::PngEncoder;
use screen_capture::model::{CapturedImage, ImageFormat, PixelFormat, Resolution};
use screen_capture::utils::{build_output_path, default_filename, default_output_dir, default_output_path, timestamp_text};

#[test]
fn generated_filename_uses_png_extension() {
    let filename = default_filename(ImageFormat::Png, Some("20240101-120000".to_string()));
    assert!(filename.ends_with(".png"));
}

#[test]
fn explicit_output_path_is_preserved() {
    let output = build_output_path(Some("shot.png".into()), "/home/u/Pictures", "fallback.png".to_string());
    assert_eq!(output, "shot.png");
}

#[test]
fn generated_output_path_keeps_filename() {
    let output = build_output_path(None, "/home/u/Pictures", "fallback.png".to_string());
    assert!(Path::new(&output).ends_with("fallback.png"));
}

#[test]
fn default_filename_shape() {
    assert_eq!(default_filename(ImageFormat::Png, Some("20240102-030405".into())), "screencap-20240102-030405.png");
    assert_eq!(default_filename(ImageFormat::Png, None), "screencap-unknown-time.png");
    assert_eq!(default_output_path("/d", None), "/d/screencap-unknown-time.png");
}

#[test]
fn output_directory_preference() {
    let pictures_exist = |p: &str| p == "/home/u/Pictures";
    assert_eq!(default_output_dir(Some("/home/u".into()), &pictures_exist, Some("/cwd".into())), "/home/u/Pictures");
    let nothing = |_: &str| false;
    assert_eq!(default_output_dir(Some("/home/u".into()), &nothing, Some("/cwd".into())), "/home/u");
    assert_eq!(default_output_dir(None, &nothing, Some("/cwd".into())), "/cwd");
    assert_eq!(default_output_dir(None, &nothing, None), ".");
}

#[test]
fn font_candidates_are_tried_in_order() {
    let dejavu = |p: &str| p == "/usr/share/fonts/truetype/dejavu/DejaVuSans.ttf";
    assert_eq!(
        default_font_path("/opt/app/DroidSansFallbackFull.ttf", &dejavu),
        Some("/usr/share/fonts/truetype/dejavu/DejaVuSans.ttf".to_string())
    );
    let all = |_: &str| true;
    assert_eq!(default_font_path("/opt/app/f.ttf", &all), Some("/opt/app/f.ttf".to_string()));
    let none = |_: &str| false;
    assert_eq!(default_font_path("/opt/app/f.ttf", &none), None);
}

#[test]
fn annotated_png_encoding() {
    let bytes = encode_annotated_png(&[0, 0, 0, 255], 1, 1).unwrap();
    assert_eq!(&bytes[..8], b"\x89PNG\r\n\x1a\n");
    let error = encode_annotated_png(&[], 0, 0).unwrap_err();
    assert!(error.describe().starts_with("encoding error: failed to encode annotated PNG: "));
}

#[test]
fn editor_bootstrap_keeps_its_inputs() {
    let image = CapturedImage::new(Resolution { width: 1, height: 1 }, PixelFormat::Rgba8, vec![1, 2, 3, 4]).unwrap();
    let bootstrap = EditorBootstrap::new(image.clone(), Some("/f.ttf".into()));
    assert_eq!(bootstrap.image, image);
    assert_eq!(bootstrap.font_path.as_deref(), Some("/f.ttf"));
}

#[test]
fn timestamps_are_zero_padded() {
    assert_eq!(timestamp_text(2024, 1, 2, 3, 4, 5), "20240102-030405");
    assert_eq!(timestamp_text(2024, 12, 31, 23, 59, 59), "20241231-235959");
    assert_eq!(timestamp_text(987, 6, 7, 0, 0, 0), "09870607-000000");
    assert_eq!(timestamp_text(-44, 3, 15, 12, 0, 0), "-00440315-120000");
    assert_eq!(
        default_filename(ImageFormat::Png, Some(timestamp_text(2024, 1, 2, 3, 4, 5))),
        "screencap-20240102-030405.png"
    );
}

#[test]
fn editor_loads_images_by_extension() {
    let image = CapturedImage::new(Resolution { width: 2, height: 1 }, PixelFormat::Rgba8, vec![1, 2, 3, 4, 5, 6, 7, 8])
        .unwrap();
    let png = PngEncoder.encode(&image).unwrap();
    assert_eq!(load_editor_image("/tmp/shot.png", &png).unwrap(), image);
    assert_eq!(load_editor_image("/tmp/SHOT.PNG", &png).unwrap(), image);
    assert!(matches!(load_editor_image("/tmp/shot.xyz", &png), Err(EditorImageError::Undecodable { .. })));
    assert!(matches!(load_editor_image("/tmp/shot", &png), Err(EditorImageError::Undecodable { .. })));
    assert!(matches!(load_editor_image("/tmp/bad.png", b"not a png"), Err(EditorImageError::Undecodable { .. })));
}
