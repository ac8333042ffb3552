//! PNG encoding, file output and the capture pipeline.

use vstd::prelude::*;

use crate::backend::{ImageEncoder, OutputTarget, ScreenCaptureBackend};
use crate::error::{CaptureError, CaptureResult};
use crate::model::{
    CaptureRequest, CapturedImage, ImageFormat, PixelFormat, SaveConflictStrategy, SaveOptions,
};
use crate::paths::{
    next_available_path, next_available_spec, parent_dir, parent_dir_of, path_debug,
    path_debug_of,
};
use crate::text::concat2;

verus! {

/// Describes a persisted capture artifact.
#[derive(Debug, Clone, PartialEq, Eq)]
pub struct OutputArtifact {
    /// The path where the artifact was written.
    pub path: String,
    /// The encoded image format.
    pub format: ImageFormat,
    /// The number of bytes written to the output target.
    pub bytes_written: usize,
}

/// The eight bytes every PNG file starts with.
pub open spec fn png_signature() -> Seq<u8> {
    seq![137u8, 80u8, 78u8, 71u8, 13u8, 10u8, 26u8, 10u8]
}

/// What the `image` crate's PNG encoder produces for an RGBA8 frame of the
/// given size: the encoded file, or the text of its error.
pub uninterp spec fn png_rgba8_outcome(width: u32, height: u32, pixels: Seq<u8>) -> Result<
    Seq<u8>,
    Seq<char>,
>;

/// Calls `image::codecs::png::PngEncoder::write_image` on an RGBA8 frame.
/// Trusted: the outcome depends on the arguments alone, and encoded bytes
/// start with the PNG signature (the encoder writes it before any chunk).
/// Which frames fail to encode, and the exact bytes, are not spelled out.
#[verifier::external_body]
pub(crate) fn png_encode_rgba8(pixels: &[u8], width: u32, height: u32) -> (r: Result<Vec<u8>, String>)
    requires
        pixels@.len() == width * height * 4,
    ensures
        match r {
            Ok(bytes) => png_rgba8_outcome(width, height, pixels@) == Ok::<Seq<u8>, Seq<char>>(
                bytes@,
            ) && bytes@.len() >= 8 && bytes@.subrange(0, 8) == png_signature(),
            Err(message) => png_rgba8_outcome(width, height, pixels@) == Err::<
                Seq<u8>,
                Seq<char>,
            >(message@),
        },
{
    let mut encoded = Vec::new();
    let encoder = image::codecs::png::PngEncoder::new(std::io::Cursor::new(&mut encoded));
    match image::ImageEncoder::write_image(encoder, pixels, width, height, image::ExtendedColorType::Rgba8) {
        Ok(()) => Ok(encoded),
        Err(error) => Err(error.to_string()),
    }
}

/// Encodes captured images into PNG bytes.
#[derive(Debug, Default, Clone, Copy)]
pub struct PngEncoder;

/// The image has no pixels to encode.
pub open spec fn image_is_empty(image: CapturedImage) -> bool {
    image.resolution.width == 0 || image.resolution.height == 0 || image.pixels@.len() == 0
}

/// What encoding `image` as PNG returns: `EmptyImage` for an image without
/// pixels, otherwise the encoder's bytes, or its error as an `Encoding` error.
pub open spec fn png_encode_result(image: CapturedImage, r: CaptureResult<Vec<u8>>) -> bool {
    &&& image_is_empty(image) ==> (r matches Err(CaptureError::EmptyImage))
    &&& !image_is_empty(image) ==> match r {
        Ok(bytes) => png_rgba8_outcome(image.resolution.width, image.resolution.height, image.pixels@)
            == Ok::<Seq<u8>, Seq<char>>(bytes@) && bytes@.len() >= 8 && bytes@.subrange(0, 8)
            == png_signature(),
        Err(CaptureError::Encoding { message }) => png_rgba8_outcome(
            image.resolution.width,
            image.resolution.height,
            image.pixels@,
        ) == Err::<Seq<u8>, Seq<char>>(message@),
        Err(_) => false,
    }
}

impl ImageEncoder for PngEncoder {
    open spec fn encode_spec(&self, image: CapturedImage, r: CaptureResult<Vec<u8>>) -> bool {
        png_encode_result(image, r)
    }

    fn format(&self) -> (f: ImageFormat)
        ensures
            f == ImageFormat::Png,
    {
        ImageFormat::Png
    }

    /// Encodes a well-formed image as PNG; empty images are refused.
    fn encode(&self, image: &CapturedImage) -> (r: CaptureResult<Vec<u8>>) {
        if image.resolution.width == 0 || image.resolution.height == 0 || image.pixels.len() == 0 {
            return Err(CaptureError::EmptyImage);
        }
        match image.pixel_format {
            PixelFormat::Rgba8 => {},
        }
        match png_encode_rgba8(image.pixels.as_slice(), image.resolution.width, image.resolution.height) {
            Ok(bytes) => Ok(bytes),
            Err(message) => Err(CaptureError::Encoding { message }),
        }
    }
}

/// How writing a file failed, as far as the output logic distinguishes it.
#[derive(Debug, Clone, Copy, PartialEq, Eq, Structural)]
pub enum WriteFailureKind {
    /// The process may not write there.
    PermissionDenied,
    /// A file already exists at the path and may not be replaced.
    AlreadyExists,
    /// Any other failure.
    Other,
}

/// A failed file write: its kind and the system's description of it.
#[derive(Debug, Clone)]
pub struct WriteFailure {
    /// The kind of failure.
    pub kind: WriteFailureKind,
    /// The system's description of the failure.
    pub detail: String,
}

/// The message of the error reported for a failed write of `path`.
pub open spec fn write_error_message(path: Seq<char>, kind: WriteFailureKind, detail: Seq<char>) -> Seq<
    char,
> {
    match kind {
        WriteFailureKind::PermissionDenied => "permission denied while writing "@ + path_debug_of(
            path,
        ),
        WriteFailureKind::AlreadyExists => "output file already exists: "@ + path_debug_of(path),
        WriteFailureKind::Other => "failed to write output file "@ + path_debug_of(path) + ": "@
            + detail,
    }
}

/// Maps a failed write of `path` to the output error users see.
pub fn map_write_error(path: &str, failure: &WriteFailure) -> (e: CaptureError)
    ensures
        e matches CaptureError::Output { message } && message@ == write_error_message(
            path@,
            failure.kind,
            failure.detail@,
        ),
{
    let quoted = path_debug(path);
    let message = match failure.kind {
        WriteFailureKind::PermissionDenied => concat2("permission denied while writing ", quoted.as_str()),
        WriteFailureKind::AlreadyExists => concat2("output file already exists: ", quoted.as_str()),
        WriteFailureKind::Other => {
            let mut s = concat2("failed to write output file ", quoted.as_str());
            s.append(": ");
            s.append(failure.detail.as_str());
            s
        },
    };
    CaptureError::Output { message }
}

/// The message of the error reported when the output directory cannot be created.
pub open spec fn directory_error_message(dir: Seq<char>, detail: Seq<char>) -> Seq<char> {
    "failed to create output directory "@ + path_debug_of(dir) + ": "@ + detail
}

/// What `resolve_output_path` may return: the requested path itself when
/// overwriting or refusing, the next free name when renaming.
pub open spec fn resolve_spec<F: Fn(&str) -> bool>(
    options: SaveOptions,
    is_taken: F,
    r: Result<String, CaptureError>,
) -> bool {
    match options.conflict_strategy {
        SaveConflictStrategy::Overwrite | SaveConflictStrategy::Error => r matches Ok(p) && p@
            == options.output_path@,
        SaveConflictStrategy::Rename => next_available_spec(is_taken, options.output_path@, r),
    }
}

/// Picks the path a save will write to.
pub fn resolve_output_path<F: Fn(&str) -> bool>(options: &SaveOptions, is_taken: &F) -> (r:
    CaptureResult<String>)
    requires
        forall|s: &str| call_requires(*is_taken, (s,)),
    ensures
        resolve_spec(*options, *is_taken, r),
{
    match options.conflict_strategy {
        SaveConflictStrategy::Overwrite | SaveConflictStrategy::Error => Ok(
            String::from_str(options.output_path.as_str()),
        ),
        SaveConflictStrategy::Rename => next_available_path(options.output_path.as_str(), is_taken),
    }
}

/// `create_dir` reported success for `dir`.
pub open spec fn dir_created<D: Fn(&str) -> Result<(), String>>(create_dir: D, dir: Seq<char>) -> bool {
    exists|s: &str, r: Result<(), String>| #[trigger] call_ensures(create_dir, (s,), r) && r is Ok && s@ == dir
}

/// `create_dir` reported the failure `detail` for `dir`.
pub open spec fn dir_failed<D: Fn(&str) -> Result<(), String>>(
    create_dir: D,
    dir: Seq<char>,
    detail: Seq<char>,
) -> bool {
    exists|s: &str, m: String|
        #[trigger] call_ensures(create_dir, (s,), Err::<(), String>(m)) && s@ == dir && m@ == detail
}

/// `write_file` reported success for writing `bytes` to `path`.
pub open spec fn file_written<W: Fn(&str, &[u8], bool) -> Result<(), WriteFailure>>(
    write_file: W,
    path: Seq<char>,
    bytes: Seq<u8>,
    create_new: bool,
) -> bool {
    exists|s: &str, b: &[u8], r: Result<(), WriteFailure>|
        #[trigger] call_ensures(write_file, (s, b, create_new), r) && r is Ok && s@ == path && b@
            == bytes
}

/// `write_file` reported a failure of kind `kind` with description `detail`.
pub open spec fn file_failed<W: Fn(&str, &[u8], bool) -> Result<(), WriteFailure>>(
    write_file: W,
    path: Seq<char>,
    bytes: Seq<u8>,
    create_new: bool,
    kind: WriteFailureKind,
    detail: Seq<char>,
) -> bool {
    exists|s: &str, b: &[u8], f: WriteFailure|
        #[trigger] call_ensures(write_file, (s, b, create_new), Err::<(), WriteFailure>(f)) && s@
            == path && b@ == bytes && f.kind == kind && f.detail@ == detail
}

/// Whether a save with `strategy` must create a new file rather than
/// replace an existing one.
pub open spec fn creates_new(strategy: SaveConflictStrategy) -> bool {
    strategy == SaveConflictStrategy::Error
}

/// Writes encoded image bytes to a filesystem path.
#[derive(Debug, Default, Clone, Copy)]
pub struct FileOutputTarget;

impl FileOutputTarget {
    /// Persists `bytes` as `options` ask, using `is_taken` to learn whether a
    /// path is in use, `create_dir` to create the output directory and
    /// `write_file` to write the file (replacing an existing one unless its
    /// last argument asks for a new file).
    pub fn write_with<X, D, W>(
        &self,
        bytes: &[u8],
        options: &SaveOptions,
        is_taken: &X,
        create_dir: &D,
        write_file: &W,
    ) -> (r: CaptureResult<OutputArtifact>) where
        X: Fn(&str) -> bool,
        D: Fn(&str) -> Result<(), String>,
        W: Fn(&str, &[u8], bool) -> Result<(), WriteFailure>,

        requires
            forall|s: &str| call_requires(*is_taken, (s,)),
            forall|s: &str| call_requires(*create_dir, (s,)),
            forall|s: &str, b: &[u8], n: bool| call_requires(*write_file, (s, b, n)),
        ensures
            match r {
                Ok(artifact) => {
                    &&& resolve_spec(*options, *is_taken, Ok::<String, CaptureError>(artifact.path))
                    &&& dir_created(*create_dir, parent_dir_of(artifact.path@))
                    &&& file_written(
                        *write_file,
                        artifact.path@,
                        bytes@,
                        creates_new(options.conflict_strategy),
                    )
                    &&& artifact.format == options.format
                    &&& artifact.bytes_written == bytes@.len()
                },
                Err(e) => {
                    ||| resolve_spec(*options, *is_taken, Err::<String, CaptureError>(e))
                    ||| exists|p: String, detail: Seq<char>|
                        #![trigger resolve_spec(*options, *is_taken, Ok::<String, CaptureError>(p)), dir_failed(*create_dir, parent_dir_of(p@), detail)]
                        {
                            &&& resolve_spec(*options, *is_taken, Ok::<String, CaptureError>(p))
                            &&& dir_failed(*create_dir, parent_dir_of(p@), detail)
                            &&& (e matches CaptureError::Output { message } && message@
                                == directory_error_message(parent_dir_of(p@), detail))
                        }
                    ||| exists|p: String, kind: WriteFailureKind, detail: Seq<char>|
                        #![trigger resolve_spec(*options, *is_taken, Ok::<String, CaptureError>(p)), file_failed(*write_file, p@, bytes@, creates_new(options.conflict_strategy), kind, detail)]
                        {
                            &&& resolve_spec(*options, *is_taken, Ok::<String, CaptureError>(p))
                            &&& dir_created(*create_dir, parent_dir_of(p@))
                            &&& file_failed(
                                *write_file,
                                p@,
                                bytes@,
                                creates_new(options.conflict_strategy),
                                kind,
                                detail,
                            )
                            &&& (e matches CaptureError::Output { message } && message@
                                == write_error_message(p@, kind, detail))
                        }
                },
            },
    {
        let resolved = match resolve_output_path(options, is_taken) {
            Ok(p) => p,
            Err(e) => return Err(e),
        };
        let parent = parent_dir(resolved.as_str());
        proof {
            assert(resolve_spec(*options, *is_taken, Ok::<String, CaptureError>(resolved)));
        }
        let parent_str = parent.as_str();
        let created = create_dir(parent_str);
        match created {
            Ok(()) => {
                proof {
                    assert(dir_created(*create_dir, parent_dir_of(resolved@)));
                }
            },
            Err(detail) => {
                let quoted = path_debug(parent.as_str());
                let mut message = concat2("failed to create output directory ", quoted.as_str());
                message.append(": ");
                message.append(detail.as_str());
                proof {
                    assert(resolve_spec(*options, *is_taken, Ok::<String, CaptureError>(resolved)));
                    assert(dir_failed(*create_dir, parent_dir_of(resolved@), detail@));
                }
                return Err(CaptureError::Output { message });
            },
        }
        let create_new = match options.conflict_strategy {
            SaveConflictStrategy::Error => true,
            _ => false,
        };
        match write_file(resolved.as_str(), bytes, create_new) {
            Ok(()) => {
                proof {
                    assert(file_written(
                        *write_file,
                        resolved@,
                        bytes@,
                        creates_new(options.conflict_strategy),
                    ));
                }
            },
            Err(failure) => {
                let error = map_write_error(resolved.as_str(), &failure);
                proof {
                    assert(resolve_spec(*options, *is_taken, Ok::<String, CaptureError>(resolved)));
                    assert(file_failed(
                        *write_file,
                        resolved@,
                        bytes@,
                        creates_new(options.conflict_strategy),
                        failure.kind,
                        failure.detail@,
                    ));
                }
                return Err(error);
            },
        }
        Ok(OutputArtifact { path: resolved, format: options.format, bytes_written: bytes.len() })
    }
}

/// The backend captured an image for `request` and the encoder turned it
/// into the outcome `encoded`.
pub open spec fn encoded_capture<B: ScreenCaptureBackend, E: ImageEncoder>(
    backend: B,
    request: CaptureRequest,
    encoder: E,
    encoded: CaptureResult<Vec<u8>>,
) -> bool {
    exists|image: CapturedImage|
        #[trigger] backend.capture_spec(request, Ok(image)) && image.wf() && encoder.encode_spec(
            image,
            encoded,
        )
}

/// Executes the standard capture -> encode flow and returns encoded bytes:
/// the encoding of what the backend captured, or the first error.
pub fn capture_and_encode<B: ScreenCaptureBackend, E: ImageEncoder>(
    backend: &B,
    request: &CaptureRequest,
    encoder: &E,
) -> (r: CaptureResult<Vec<u8>>)
    ensures
        match r {
            Ok(_) => encoded_capture(*backend, *request, *encoder, r),
            Err(e) => backend.capture_spec(*request, Err(e)) || encoded_capture(
                *backend,
                *request,
                *encoder,
                r,
            ),
        },
{
    let image = match backend.capture(request) {
        Ok(image) => image,
        Err(e) => return Err(e),
    };
    let encoded = encoder.encode(&image);
    proof {
        assert(backend.capture_spec(*request, Ok::<CapturedImage, CaptureError>(image)));
    }
    encoded
}

/// `r` is what the capture -> encode -> persist flow may return: what the
/// target answered for the bytes the encoder made of the backend's capture
/// of `request`, or the capture's or the encoding's error.
pub open spec fn saved_capture<B: ScreenCaptureBackend, E: ImageEncoder, T: OutputTarget>(
    backend: B,
    request: CaptureRequest,
    encoder: E,
    target: T,
    options: SaveOptions,
    r: CaptureResult<OutputArtifact>,
) -> bool {
    ||| exists|bytes: Vec<u8>|
        encoded_capture(backend, request, encoder, Ok::<Vec<u8>, CaptureError>(bytes))
            && #[trigger] target.write_spec(bytes@, options, r)
    ||| (r matches Err(e) && (backend.capture_spec(request, Err(e)) || encoded_capture(
        backend,
        request,
        encoder,
        Err::<Vec<u8>, CaptureError>(e),
    )))
}

/// Executes the standard capture -> encode -> persist flow: the target
/// writes exactly the bytes the encoder made of what the backend captured.
pub fn capture_and_save<B: ScreenCaptureBackend, E: ImageEncoder, T: OutputTarget>(
    backend: &B,
    request: &CaptureRequest,
    encoder: &E,
    target: &T,
    save_options: &SaveOptions,
) -> (r: CaptureResult<OutputArtifact>)
    ensures
        saved_capture(*backend, *request, *encoder, *target, *save_options, r),
{
    let encoded = match capture_and_encode(backend, request, encoder) {
        Ok(bytes) => bytes,
        Err(e) => return Err(e),
    };
    let written = target.write(encoded.as_slice(), save_options);
    proof {
        assert(target.write_spec(encoded@, *save_options, written));
    }
    written
}

} // verus!
