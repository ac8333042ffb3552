//! The logic of the desktop-portal backend: turning the screenshot URI the
//! portal answers with into a local path, and shaping the loaded image to
//! the request.

use vstd::prelude::*;

use crate::error::{CaptureError, CaptureResult};
use crate::model::{crop_result, crop_safe, CaptureArea, CapturedImage, PixelFormat, Resolution};
use crate::text::{concat2, debug_repr, debug_text};

verus! {

/// The error text `url::Url::parse` reports for `input`, or `None` when
/// `input` parses.
pub uninterp spec fn url_parse_error_of(input: Seq<char>) -> Option<Seq<char>>;

/// The local path that `url::Url::to_file_path` gives for the URL that
/// `url::Url::parse` makes of `input` (two calls composed), as text with
/// bytes that are not UTF-8 replaced; `None` when it names no local file.
/// It depends on `input` alone.
pub uninterp spec fn url_file_path_of(input: Seq<char>) -> Option<Seq<char>>;

/// Calls `url::Url::parse` on `input` and, when it parses,
/// `url::Url::to_file_path` on the result. Trusted: the parse fails exactly
/// when `url_parse_error_of(input)` is `Some`, with that error's display
/// text; otherwise the path is `url_file_path_of(input)`. Both depend on
/// `input` alone. Which URLs parse and which name a local file (one with a
/// path and a host that is empty or `localhost`) is not spelled out.
#[verifier::external_body]
fn parse_file_url(input: &str) -> (r: Result<Option<String>, String>)
    ensures
        match r {
            Ok(path) => url_parse_error_of(input@) is None && match path {
                Some(p) => url_file_path_of(input@) == Some(p@),
                None => url_file_path_of(input@) is None,
            },
            Err(message) => url_parse_error_of(input@) == Some(message@),
        },
{
    match url::Url::parse(input) {
        Ok(url) => Ok(url.to_file_path().ok().map(|path| path.to_string_lossy().into_owned())),
        Err(error) => Err(error.to_string()),
    }
}

/// The message for a URI that does not parse.
pub open spec fn invalid_uri_message(uri: Seq<char>, error: Seq<char>) -> Seq<char> {
    "portal returned an invalid screenshot URI "@ + debug_repr(uri) + ": "@ + error
}

/// The message for a URI that names no local file.
pub open spec fn non_file_uri_message(uri: Seq<char>) -> Seq<char> {
    "portal returned a non-file screenshot URI "@ + debug_repr(uri)
        + "; only file-backed screenshots are supported in this MVP"@
}

/// What reading `uri` gives once the URL library has answered: `parsed` is
/// the parse error text, or the local path the URL names, if any.
pub open spec fn file_path_outcome_spec(
    uri: Seq<char>,
    parsed: Result<Option<String>, String>,
    r: CaptureResult<String>,
) -> bool {
    match parsed {
        Err(error) => r matches Err(CaptureError::Backend { message }) && message@
            == invalid_uri_message(uri, error@),
        Ok(Some(path)) => r matches Ok(p) && p@ == path@,
        Ok(None) => r matches Err(CaptureError::Unsupported { message }) && message@
            == non_file_uri_message(uri),
    }
}

/// Turns the URL library's answer for `uri` into a local path or an error.
pub fn file_path_outcome(uri: &str, parsed: Result<Option<String>, String>) -> (r: CaptureResult<
    String,
>)
    ensures
        file_path_outcome_spec(uri@, parsed, r),
{
    match parsed {
        Err(error) => {
            let mut message = String::from_str("portal returned an invalid screenshot URI ");
            let quoted = debug_text(uri);
            message.append(quoted.as_str());
            message.append(": ");
            message.append(error.as_str());
            proof {
                reveal_strlit("portal returned an invalid screenshot URI ");
                reveal_strlit(": ");
            }
            Err(CaptureError::Backend { message })
        },
        Ok(Some(path)) => Ok(path),
        Ok(None) => {
            let mut message = String::from_str("portal returned a non-file screenshot URI ");
            let quoted = debug_text(uri);
            message.append(quoted.as_str());
            message.append("; only file-backed screenshots are supported in this MVP");
            proof {
                reveal_strlit("portal returned a non-file screenshot URI ");
                reveal_strlit("; only file-backed screenshots are supported in this MVP");
            }
            Err(CaptureError::Unsupported { message })
        },
    }
}

/// Converts the `file://` URI of a portal screenshot into a local path.
/// A URI that does not parse is a backend error with the parser's message;
/// one that parses but names no local file is unsupported; otherwise the
/// result is the local path the URL names.
pub fn file_path_from_uri(uri: &str) -> (r: CaptureResult<String>)
    ensures
        match url_parse_error_of(uri@) {
            Some(error) => r matches Err(CaptureError::Backend { message }) && message@
                == invalid_uri_message(uri@, error),
            None => match url_file_path_of(uri@) {
                Some(path) => r matches Ok(p) && p@ == path,
                None => r matches Err(CaptureError::Unsupported { message }) && message@
                    == non_file_uri_message(uri@),
            },
        },
{
    file_path_outcome(uri, parse_file_url(uri))
}

/// Whether a request asks the portal for its interactive dialog.
pub open spec fn wants_interactive(area: CaptureArea) -> bool {
    area is InteractiveRegion
}

/// Tells whether the portal should show its interactive selection dialog.
pub fn portal_interactive(area: CaptureArea) -> (b: bool)
    ensures
        b == wants_interactive(area),
{
    matches!(area, CaptureArea::InteractiveRegion)
}

/// Shapes a screenshot loaded from the portal to the request: a full-screen
/// or interactive request (where the portal already let the user choose)
/// keeps the image, a region request crops it.
pub fn finish_portal_capture(image: CapturedImage, area: CaptureArea) -> (r: CaptureResult<
    CapturedImage,
>)
    requires
        image.wf(),
        area matches CaptureArea::Region(region) ==> crop_safe(image, region),
    ensures
        match area {
            CaptureArea::Region(region) => crop_result(image, region, r),
            _ => r matches Ok(img) && img == image,
        },
{
    match area {
        CaptureArea::Region(region) => image.crop(region),
        _ => Ok(image),
    }
}


/// What the `image` crate makes of `bytes`: `load_from_memory` decodes them
/// and `to_rgba8` converts the image (two calls composed); the result is the
/// width, height and RGBA8 pixels, or the text of the error. It depends on
/// `bytes` alone.
pub uninterp spec fn image_decode_outcome(bytes: Seq<u8>) -> Result<(u32, u32, Seq<u8>), Seq<char>>;

/// Calls `image::load_from_memory` and converts the image to RGBA8.
/// Trusted: the outcome depends on `bytes` alone, and the pixel buffer holds
/// at least `width * height * 4` bytes (every `ImageBuffer` constructor
/// checks that). Which inputs decode, and to what, is not spelled out.
#[verifier::external_body]
fn decode_image_rgba8(bytes: &[u8]) -> (r: Result<(u32, u32, Vec<u8>), String>)
    ensures
        match r {
            Ok((width, height, pixels)) => image_decode_outcome(bytes@) == Ok::<
                (u32, u32, Seq<u8>),
                Seq<char>,
            >((width, height, pixels@)) && width * height * 4 <= pixels@.len(),
            Err(message) => image_decode_outcome(bytes@) == Err::<(u32, u32, Seq<u8>), Seq<char>>(
                message@,
            ),
        },
{
    match image::load_from_memory(bytes) {
        Ok(image) => {
            let rgba = image.to_rgba8();
            Ok((rgba.width(), rgba.height(), rgba.into_raw()))
        },
        Err(error) => Err(error.to_string()),
    }
}

/// The message for a screenshot file that does not decode.
pub open spec fn undecodable_message(error: Seq<char>) -> Seq<char> {
    "failed to decode portal screenshot image: "@ + error
}

/// Decodes the bytes of a portal screenshot file into a captured RGBA8 image.
pub fn load_portal_image(bytes: &[u8]) -> (r: CaptureResult<CapturedImage>)
    ensures
        match image_decode_outcome(bytes@) {
            Err(error) => r matches Err(CaptureError::Backend { message }) && message@
                == undecodable_message(error),
            Ok((width, height, pixels)) => if pixels.len() == width * height * 4 {
                r matches Ok(img) && img.resolution == (Resolution { width, height })
                    && img.pixel_format == PixelFormat::Rgba8 && img.pixels@ == pixels && img.wf()
            } else {
                r matches Err(CaptureError::InvalidImageBuffer { expected, actual })
                    && expected == width * height * 4 && actual == pixels.len()
            },
        },
{
    match decode_image_rgba8(bytes) {
        Err(error) => Err(CaptureError::Backend {
            message: concat2("failed to decode portal screenshot image: ", error.as_str()),
        }),
        Ok((width, height, pixels)) => {
            let count = pixels.len();
            proof {
                assert(count == pixels@.len());
            }
            CapturedImage::new(Resolution { width, height }, PixelFormat::Rgba8, pixels)
        },
    }
}

} // verus!
