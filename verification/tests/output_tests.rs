use std::cell::RefCell;
use std::collections::BTreeMap;

use screen_capture::backend::{ImageEncoder, OutputTarget, ScreenCaptureBackend};
use screen_capture::error::{CaptureError, CaptureResult};
use screen_capture::model::{
    CaptureRequest, CapturedImage, ImageFormat, PixelFormat, Resolution, SaveConflictStrategy, SaveOptions,
};
use screen_capture::output::{
    capture_and_encode, capture_and_save, map_write_error, resolve_output_path, FileOutputTarget,
    OutputArtifact, PngEncoder, WriteFailure, WriteFailureKind,
};
use screen_capture::hotkey::capture_window;
use screen_capture::model::CaptureRegion;
use screen_capture::paths::{next_available_path, parent_dir};

const PNG_SIGNATURE: &[u8] = b"\x89PNG\r\n\x1a\n";

struct StubBackend;

impl ScreenCaptureBackend for StubBackend {
    fn name(&self) -> &'static str {
        "stub"
    }

    fn capture(&self, _request: &CaptureRequest) -> CaptureResult<CapturedImage> {
        CapturedImage::new(Resolution { width: 1, height: 1 }, PixelFormat::Rgba8, vec![255, 0, 0, 255])
    }
}

#[derive(Default)]
struct StubOutputTarget {
    writes: RefCell<Vec<String>>,
}

impl OutputTarget for StubOutputTarget {
    fn write(&self, bytes: &[u8], options: &SaveOptions) -> CaptureResult<OutputArtifact> {
        self.writes.borrow_mut().push(options.output_path.clone());
        Ok(OutputArtifact { path: options.output_path.clone(), format: options.format, bytes_written: bytes.len() })
    }
}

/// An in-memory stand-in for the file system.
#[derive(Default)]
struct MemoryFs {
    files: RefCell<BTreeMap<String, Vec<u8>>>,
    dirs: RefCell<Vec<String>>,
}

impl MemoryFs {
    fn write(&self, bytes: &[u8], options: &SaveOptions) -> CaptureResult<OutputArtifact> {
        let is_taken = |path: &str| self.files.borrow().contains_key(path);
        let create_dir = |dir: &str| -> Result<(), String> {
            self.dirs.borrow_mut().push(dir.to_string());
            Ok(())
        };
        let write_file = |path: &str, data: &[u8], create_new: bool| -> Result<(), WriteFailure> {
            let mut files = self.files.borrow_mut();
            if create_new && files.contains_key(path) {
                return Err(WriteFailure { kind: WriteFailureKind::AlreadyExists, detail: "File exists".to_string() });
            }
            files.insert(path.to_string(), data.to_vec());
            Ok(())
        };
        FileOutputTarget.write_with(bytes, options, &is_taken, &create_dir, &write_file)
    }
}

#[test]
fn png_encoder_writes_png_signature() {
    let image =
        CapturedImage::new(Resolution { width: 1, height: 1 }, PixelFormat::Rgba8, vec![255, 0, 0, 255])
            .expect("valid image");

    let bytes = PngEncoder.encode(&image).expect("png encoding");
    assert_eq!(&bytes[..8], PNG_SIGNATURE);
}

#[test]
fn capture_pipeline_uses_unified_request_and_save_options() {
    let target = StubOutputTarget::default();
    let artifact = capture_and_save(
        &StubBackend,
        &CaptureRequest::fullscreen(),
        &PngEncoder,
        &target,
        &SaveOptions::new(ImageFormat::Png, "out.png"),
    )
    .expect("capture pipeline");

    assert_eq!(artifact.path, String::from("out.png"));
    assert_eq!(artifact.format, ImageFormat::Png);
    assert_eq!(target.writes.borrow().as_slice(), &[String::from("out.png")]);
}

#[test]
fn capture_and_encode_returns_png_bytes() {
    let encoded = capture_and_encode(&StubBackend, &CaptureRequest::fullscreen(), &PngEncoder).expect("encoded");
    assert_eq!(&encoded[..8], PNG_SIGNATURE);
}

#[test]
fn png_encoder_rejects_empty_image() {
    let image = CapturedImage::new(Resolution { width: 0, height: 0 }, PixelFormat::Rgba8, Vec::new())
        .expect("shape-valid image");

    let error = PngEncoder.encode(&image).expect_err("empty image should fail");
    assert!(matches!(error, CaptureError::EmptyImage));
}

#[test]
fn rename_strategy_picks_next_available_filename() {
    let fs = MemoryFs::default();
    fs.files.borrow_mut().insert("/tmp/shots/shot.png".to_string(), b"existing".to_vec());

    let artifact = fs
        .write(
            b"new",
            &SaveOptions::with_conflict_strategy(ImageFormat::Png, "/tmp/shots/shot.png", SaveConflictStrategy::Rename),
        )
        .expect("renamed write");

    assert_eq!(artifact.path, "/tmp/shots/shot-1.png");
    assert_eq!(fs.files.borrow()["/tmp/shots/shot-1.png"], b"new".to_vec());
    assert_eq!(fs.files.borrow()["/tmp/shots/shot.png"], b"existing".to_vec());
}

#[test]
fn error_strategy_rejects_existing_path() {
    let fs = MemoryFs::default();
    fs.files.borrow_mut().insert("/tmp/shots/shot.png".to_string(), b"existing".to_vec());

    let error = fs
        .write(
            b"new",
            &SaveOptions::with_conflict_strategy(ImageFormat::Png, "/tmp/shots/shot.png", SaveConflictStrategy::Error),
        )
        .expect_err("existing path should fail");

    assert!(error.describe().contains("already exists"));
}

#[test]
fn overwrite_strategy_replaces_existing_file() {
    let fs = MemoryFs::default();
    fs.files.borrow_mut().insert("/tmp/shots/shot.png".to_string(), b"existing".to_vec());
    let artifact = fs
        .write(
            b"newer",
            &SaveOptions::with_conflict_strategy(ImageFormat::Png, "/tmp/shots/shot.png", SaveConflictStrategy::Overwrite),
        )
        .expect("overwrite");
    assert_eq!(artifact.path, "/tmp/shots/shot.png");
    assert_eq!(artifact.bytes_written, 5);
    assert_eq!(fs.files.borrow()["/tmp/shots/shot.png"], b"newer".to_vec());
    assert_eq!(fs.dirs.borrow().as_slice(), &["/tmp/shots".to_string()]);
}

#[test]
fn written_file_holds_exactly_the_encoded_bytes() {
    let fs = MemoryFs::default();
    let image = StubBackend.capture(&CaptureRequest::fullscreen()).unwrap();
    let encoded = PngEncoder.encode(&image).unwrap();
    let artifact = fs.write(&encoded, &SaveOptions::new(ImageFormat::Png, "out/cap.png")).unwrap();
    assert_eq!(artifact.bytes_written, encoded.len());
    assert_eq!(fs.files.borrow()[&artifact.path], encoded);
}

#[test]
fn directory_failure_is_an_output_error() {
    let is_taken = |_: &str| false;
    let create_dir = |_: &str| -> Result<(), String> { Err("Permission denied (os error 13)".to_string()) };
    let write_file = |_: &str, _: &[u8], _: bool| -> Result<(), WriteFailure> { Ok(()) };
    let error = FileOutputTarget
        .write_with(b"x", &SaveOptions::new(ImageFormat::Png, "/root/x/shot.png"), &is_taken, &create_dir, &write_file)
        .expect_err("no directory");
    assert_eq!(
        error.describe(),
        "output error: failed to create output directory \"/root/x\": Permission denied (os error 13)"
    );
}

#[test]
fn write_errors_are_described_by_kind() {
    let denied = WriteFailure { kind: WriteFailureKind::PermissionDenied, detail: "denied".to_string() };
    assert_eq!(map_write_error("a.png", &denied).describe(), "output error: permission denied while writing \"a.png\"");
    let exists = WriteFailure { kind: WriteFailureKind::AlreadyExists, detail: "exists".to_string() };
    assert_eq!(map_write_error("a.png", &exists).describe(), "output error: output file already exists: \"a.png\"");
    let other = WriteFailure { kind: WriteFailureKind::Other, detail: "disk full".to_string() };
    assert_eq!(
        map_write_error("a.png", &other).describe(),
        "output error: failed to write output file \"a.png\": disk full"
    );
}

#[test]
fn next_available_path_counts_up_from_one() {
    let taken = ["dir/shot.png", "dir/shot-1.png", "dir/shot-2.png"];
    let is_taken = |p: &str| taken.contains(&p);
    assert_eq!(next_available_path("dir/shot.png", &is_taken).unwrap(), "dir/shot-3.png");
    assert_eq!(next_available_path("dir/free.png", &is_taken).unwrap(), "dir/free.png");
}

#[test]
fn next_available_path_without_extension_and_without_free_name() {
    let is_taken = |p: &str| p == "notes";
    assert_eq!(next_available_path("notes", &is_taken).unwrap(), "./notes-1");
    let always = |_: &str| true;
    let error = next_available_path("dir/shot.png", &always).expect_err("every name taken");
    assert_eq!(error.describe(), "output error: failed to find an available filename near \"dir/shot.png\"");
    let error = next_available_path("/", &always).expect_err("no file name");
    assert!(matches!(error, CaptureError::InvalidOutputPath { .. }));
    assert_eq!(error.describe(), "invalid output path: \"/\"");
}

#[test]
fn resolve_keeps_path_unless_renaming() {
    let always = |_: &str| true;
    let keep = SaveOptions::with_conflict_strategy(ImageFormat::Png, "a.png", SaveConflictStrategy::Error);
    assert_eq!(resolve_output_path(&keep, &always).unwrap(), "a.png");
    let rename = SaveOptions::with_conflict_strategy(ImageFormat::Png, "a.png", SaveConflictStrategy::Rename);
    let first_free = |p: &str| p == "a.png";
    assert_eq!(resolve_output_path(&rename, &first_free).unwrap(), "./a-1.png");
}

#[test]
fn parent_dir_falls_back_to_current_directory() {
    assert_eq!(parent_dir("shot.png"), ".");
    assert_eq!(parent_dir("/tmp/shot.png"), "/tmp");
    assert_eq!(parent_dir("/"), ".");
}

struct WideBackend;

impl ScreenCaptureBackend for WideBackend {
    fn name(&self) -> &'static str {
        "wide"
    }

    fn capture(&self, request: &CaptureRequest) -> CaptureResult<CapturedImage> {
        let image = CapturedImage::new(
            Resolution { width: 2, height: 1 },
            PixelFormat::Rgba8,
            vec![1, 1, 1, 255, 2, 2, 2, 255],
        )?;
        match request.area {
            screen_capture::model::CaptureArea::Region(region) => image.crop(region),
            _ => Ok(image),
        }
    }
}

#[test]
fn hotkey_capture_saves_the_window_in_the_output_directory() {
    let fs = MemoryFs::default();
    let target = StubOutputTarget::default();
    let window = CaptureRegion::new(1, 0, 1, 1).unwrap();
    let artifact = capture_window(
        Ok(window),
        &WideBackend,
        &PngEncoder,
        &target,
        "/home/u/Pictures",
        Some("20240102-030405".to_string()),
    )
    .expect("saved");
    assert_eq!(artifact.path, "/home/u/Pictures/screencap-20240102-030405.png");
    let expected = PngEncoder
        .encode(&CapturedImage::new(Resolution { width: 1, height: 1 }, PixelFormat::Rgba8, vec![2, 2, 2, 255]).unwrap())
        .unwrap();
    assert_eq!(artifact.bytes_written, expected.len());
    assert_eq!(target.writes.borrow().as_slice(), &["/home/u/Pictures/screencap-20240102-030405.png".to_string()]);
    let missing = CaptureError::Backend { message: "no X11 window found under the pointer".into() };
    let error = capture_window(Err(missing), &WideBackend, &PngEncoder, &target, "/d", None).unwrap_err();
    assert_eq!(error.describe(), "backend error: no X11 window found under the pointer");
    assert!(fs.files.borrow().is_empty());
}
