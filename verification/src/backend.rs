//! The extension points of the capture pipeline: where pixels come from,
//! how they are encoded and where the encoded bytes go.

use vstd::prelude::*;

use crate::error::CaptureResult;
use crate::model::{CaptureRequest, CapturedImage, ImageFormat, SaveOptions};
use crate::output::OutputArtifact;

verus! {

/// Captures pixels from a screen source.
pub trait ScreenCaptureBackend {
    /// What a capture of `request` may return, as the implementation states
    /// it; an implementation that states nothing allows any outcome.
    open spec fn capture_spec(&self, request: CaptureRequest, r: CaptureResult<CapturedImage>) -> bool {
        true
    }

    /// Returns a stable backend identifier for logs and diagnostics.
    fn name(&self) -> &'static str;

    /// Captures image data for the provided backend-agnostic request.
    /// A captured image always has a well-formed pixel buffer.
    fn capture(&self, request: &CaptureRequest) -> (r: CaptureResult<CapturedImage>)
        ensures
            self.capture_spec(*request, r),
            r matches Ok(image) ==> image.wf(),
    ;
}

/// Encodes a raw image into a serialized image format.
pub trait ImageEncoder {
    /// What encoding `image` may return, as the implementation states it;
    /// an implementation that states nothing allows any outcome.
    open spec fn encode_spec(&self, image: CapturedImage, r: CaptureResult<Vec<u8>>) -> bool {
        true
    }

    /// Returns the encoded image format produced by this encoder.
    fn format(&self) -> ImageFormat;

    /// Encodes a well-formed captured image and returns the encoded bytes.
    fn encode(&self, image: &CapturedImage) -> (r: CaptureResult<Vec<u8>>)
        requires
            image.wf(),
        ensures
            self.encode_spec(*image, r),
    ;
}

/// Writes encoded image bytes to a destination.
pub trait OutputTarget {
    /// What writing `bytes` with `options` may return, as the implementation
    /// states it; an implementation that states nothing allows any outcome.
    open spec fn write_spec(&self, bytes: Seq<u8>, options: SaveOptions, r: CaptureResult<OutputArtifact>) -> bool {
        true
    }

    /// Persists `bytes` according to the provided save options.
    fn write(&self, bytes: &[u8], options: &SaveOptions) -> (r: CaptureResult<OutputArtifact>)
        ensures
            self.write_spec(bytes@, *options, r),
    ;
}

} // verus!
