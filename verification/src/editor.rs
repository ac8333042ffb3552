//! The parts of the annotation editor that do not draw: what it starts
//! with, which font it uses, and how the annotated image is encoded.

use vstd::prelude::*;

use crate::backend::ScreenCaptureBackend;
use crate::error::{CaptureError, CaptureResult};
use crate::model::{CaptureArea, CaptureRequest, CapturedImage, PixelFormat, Resolution};
use crate::output::{png_encode_rgba8, png_rgba8_outcome};
use crate::paths::answered;
use crate::text::concat2;

verus! {

/// What the editor window is opened with.
#[derive(Debug, Clone)]
pub struct EditorBootstrap {
    /// The screenshot to annotate.
    pub image: CapturedImage,
    /// The font used for text annotations, if any.
    pub font_path: Option<String>,
}

impl EditorBootstrap {
    /// Bundles the screenshot and the annotation font.
    pub fn new(image: CapturedImage, font_path: Option<String>) -> (b: Self)
        ensures
            b.image == image,
            b.font_path == font_path,
    {
        EditorBootstrap { image, font_path }
    }
}

/// The font files tried for annotations, in order of preference: the
/// bundled font, then fonts commonly installed on Linux desktops.
pub open spec fn font_candidates(bundled: Seq<char>) -> Seq<Seq<char>> {
    seq![
        bundled,
        "/usr/share/fonts/truetype/droid/DroidSansFallbackFull.ttf"@,
        "/usr/share/fonts/truetype/dejavu/DejaVuSans.ttf"@,
        "/home/ryk/.local/share/fonts/MapleMono-NF-CN-Regular.ttf"@,
    ]
}

/// Picks the first font candidate that `is_present` reports present.
pub fn default_font_path<F: Fn(&str) -> bool>(bundled: &str, is_present: &F) -> (r: Option<String>)
    requires
        forall|s: &str| call_requires(*is_present, (s,)),
    ensures
        match r {
            Some(p) => exists|k: int|
                0 <= k < 4 && p@ == #[trigger] font_candidates(bundled@)[k] && answered(*is_present, p@, true)
                    && forall|j: int| 0 <= j < k ==> answered(*is_present, #[trigger] font_candidates(bundled@)[j], false),
            None => forall|j: int| 0 <= j < 4 ==> answered(*is_present, #[trigger] font_candidates(bundled@)[j], false),
        },
{
    let ghost c = font_candidates(bundled@);
    proof {
        reveal_strlit("/usr/share/fonts/truetype/droid/DroidSansFallbackFull.ttf");
        reveal_strlit("/usr/share/fonts/truetype/dejavu/DejaVuSans.ttf");
        reveal_strlit("/home/ryk/.local/share/fonts/MapleMono-NF-CN-Regular.ttf");
    }
    if is_present(bundled) {
        proof {
            assert(c[0] == bundled@);
        }
        return Some(String::from_str(bundled));
    }
    let second = "/usr/share/fonts/truetype/droid/DroidSansFallbackFull.ttf";
    if is_present(second) {
        proof {
            assert(c[1] == second@);
        }
        return Some(String::from_str(second));
    }
    let third = "/usr/share/fonts/truetype/dejavu/DejaVuSans.ttf";
    if is_present(third) {
        proof {
            assert(c[2] == third@);
        }
        return Some(String::from_str(third));
    }
    let fourth = "/home/ryk/.local/share/fonts/MapleMono-NF-CN-Regular.ttf";
    if is_present(fourth) {
        proof {
            assert(c[3] == fourth@);
        }
        return Some(String::from_str(fourth));
    }
    proof {
        assert(c[0] == bundled@);
        assert(c[1] == second@);
        assert(c[2] == third@);
        assert(c[3] == fourth@);
    }
    None
}

/// The message of the error for an annotated image the encoder refused.
pub open spec fn annotated_encoding_message(error: Seq<char>) -> Seq<char> {
    "failed to encode annotated PNG: "@ + error
}

/// Encodes the annotated RGBA8 image as PNG.
pub fn encode_annotated_png(pixels: &[u8], width: u32, height: u32) -> (r: CaptureResult<Vec<u8>>)
    requires
        pixels@.len() == width * height * 4,
    ensures
        match png_rgba8_outcome(width, height, pixels@) {
            Ok(bytes) => r matches Ok(b) && b@ == bytes,
            Err(error) => r matches Err(CaptureError::Encoding { message }) && message@
                == annotated_encoding_message(error),
        },
{
    match png_encode_rgba8(pixels, width, height) {
        Ok(bytes) => Ok(bytes),
        Err(error) => Err(CaptureError::Encoding {
            message: concat2("failed to encode annotated PNG: ", error.as_str()),
        }),
    }
}

/// What the `image` crate makes of the file `path` holding `bytes`: the
/// format is chosen from the path's extension (`image::ImageFormat::from_path`),
/// the bytes are decoded in that format (`image::ImageReader::decode`) and the
/// image is converted to RGBA8 (`to_rgba8`); the result is the width, height
/// and pixels, or the text of the error. It depends on `path` and `bytes` alone.
pub uninterp spec fn image_file_outcome(path: Seq<char>, bytes: Seq<u8>) -> Result<(u32, u32, Seq<u8>), Seq<char>>;

/// Decodes the bytes of an image file whose format is given by its path's
/// extension, as opening it with `image::ImageReader::open` and decoding
/// does. Trusted: the outcome is `image_file_outcome(path, bytes)`, and the
/// pixel buffer holds at least `width * height * 4` bytes (every
/// `ImageBuffer` constructor checks that). Which files decode, and to what,
/// is not spelled out; a path ending in a bare dot is reported as an
/// unrecognized extension rather than an unknown format.
#[verifier::external_body]
fn decode_image_file(path: &str, bytes: &[u8]) -> (r: Result<(u32, u32, Vec<u8>), String>)
    ensures
        match r {
            Ok((width, height, pixels)) => image_file_outcome(path@, bytes@) == Ok::<
                (u32, u32, Seq<u8>),
                Seq<char>,
            >((width, height, pixels@)) && width * height * 4 <= pixels@.len(),
            Err(message) => image_file_outcome(path@, bytes@) == Err::<(u32, u32, Seq<u8>), Seq<char>>(
                message@,
            ),
        },
{
    let format = match image::ImageFormat::from_path(path) {
        Ok(format) => format,
        Err(error) => return Err(error.to_string()),
    };
    match image::ImageReader::with_format(std::io::Cursor::new(bytes), format).decode() {
        Ok(image) => {
            let rgba = image.to_rgba8();
            Ok((rgba.width(), rgba.height(), rgba.into_raw()))
        },
        Err(error) => Err(error.to_string()),
    }
}

/// Why an image file could not be opened in the editor.
#[derive(Debug, Clone)]
pub enum EditorImageError {
    /// The file's bytes do not decode; the decoder's error text.
    Undecodable { message: String },
    /// The decoded pixels do not make a captured image.
    Invalid(CaptureError),
}

/// Loads the image file `path`, whose contents are `bytes`, for the editor.
pub fn load_editor_image(path: &str, bytes: &[u8]) -> (r: Result<CapturedImage, EditorImageError>)
    ensures
        match image_file_outcome(path@, bytes@) {
            Err(error) => r matches Err(EditorImageError::Undecodable { message }) && message@ == error,
            Ok((width, height, pixels)) => if pixels.len() == width * height * 4 {
                r matches Ok(img) && img.resolution == (Resolution { width, height })
                    && img.pixel_format == PixelFormat::Rgba8 && img.pixels@ == pixels && img.wf()
            } else {
                r matches Err(EditorImageError::Invalid(CaptureError::InvalidImageBuffer { expected, actual }))
                    && expected == width * height * 4 && actual == pixels.len()
            },
        },
{
    match decode_image_file(path, bytes) {
        Err(message) => Err(EditorImageError::Undecodable { message }),
        Ok((width, height, pixels)) => {
            let count = pixels.len();
            proof {
                assert(count == pixels@.len());
            }
            match CapturedImage::new(Resolution { width, height }, PixelFormat::Rgba8, pixels) {
                Ok(image) => Ok(image),
                Err(error) => Err(EditorImageError::Invalid(error)),
            }
        },
    }
}

/// Captures a region the user selects, to open it in the editor.
pub fn capture_interactive_region<B: ScreenCaptureBackend>(backend: &B) -> (r: CaptureResult<CapturedImage>)
    ensures
        backend.capture_spec(CaptureRequest { area: CaptureArea::InteractiveRegion }, r),
        r matches Ok(image) ==> image.wf(),
{
    backend.capture(&CaptureRequest::interactive_region())
}

} // verus!
