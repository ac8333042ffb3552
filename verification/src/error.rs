//! The error type shared by every part of the library.

use vstd::prelude::*;

use crate::paths::{path_debug, path_debug_of};
use crate::text::{concat2, decimal, push_decimal};

verus! {

/// Represents all recoverable errors exposed by the public API.
#[derive(Debug, Clone)]
pub enum CaptureError {
    /// The current platform or session type is not supported by the active backend.
    Unsupported { message: String },
    /// No compatible backend could be initialized for the requested operation.
    BackendUnavailable { message: String },
    /// The requested capture parameters are invalid.
    InvalidRequest { message: String },
    /// The user cancelled the in-progress capture interaction.
    Cancelled { message: String },
    /// A requested output path is invalid.
    InvalidOutputPath { path: String },
    /// The captured image is empty and cannot be encoded or saved.
    EmptyImage,
    /// The captured pixel buffer does not match the declared metadata.
    InvalidImageBuffer { expected: usize, actual: usize },
    /// An error occurred while talking to a platform backend.
    Backend { message: String },
    /// An error occurred while encoding an image.
    Encoding { message: String },
    /// An error occurred while writing output bytes.
    Output { message: String },
}

/// Standard result type used across the library.
pub type CaptureResult<T> = Result<T, CaptureError>;

/// The human-readable text of an error, as shown to users.
pub open spec fn display_text(e: CaptureError) -> Seq<char> {
    match e {
        CaptureError::Unsupported { message } => "unsupported operation: "@ + message@,
        CaptureError::BackendUnavailable { message } => "backend unavailable: "@ + message@,
        CaptureError::InvalidRequest { message } => "invalid capture request: "@ + message@,
        CaptureError::Cancelled { message } => "capture cancelled: "@ + message@,
        CaptureError::InvalidOutputPath { path } => "invalid output path: "@ + path_debug_of(path@),
        CaptureError::EmptyImage => "captured image is empty"@,
        CaptureError::InvalidImageBuffer { expected, actual } =>
            "invalid image buffer: expected "@ + decimal(expected as nat) + " bytes, got "@
                + decimal(actual as nat),
        CaptureError::Backend { message } => "backend error: "@ + message@,
        CaptureError::Encoding { message } => "encoding error: "@ + message@,
        CaptureError::Output { message } => "output error: "@ + message@,
    }
}

impl CaptureError {
    /// Renders the error as the text users see.
    pub fn describe(&self) -> (s: String)
        ensures
            s@ == display_text(*self),
    {
        match self {
            CaptureError::Unsupported { message } => concat2("unsupported operation: ", message.as_str()),
            CaptureError::BackendUnavailable { message } => concat2("backend unavailable: ", message.as_str()),
            CaptureError::InvalidRequest { message } => concat2("invalid capture request: ", message.as_str()),
            CaptureError::Cancelled { message } => concat2("capture cancelled: ", message.as_str()),
            CaptureError::InvalidOutputPath { path } => {
                let quoted = path_debug(path.as_str());
                concat2("invalid output path: ", quoted.as_str())
            },
            CaptureError::EmptyImage => String::from_str("captured image is empty"),
            CaptureError::InvalidImageBuffer { expected, actual } => {
                let mut s = String::from_str("invalid image buffer: expected ");
                push_decimal(&mut s, *expected as u64);
                s.append(" bytes, got ");
                push_decimal(&mut s, *actual as u64);
                s
            },
            CaptureError::Backend { message } => concat2("backend error: ", message.as_str()),
            CaptureError::Encoding { message } => concat2("encoding error: ", message.as_str()),
            CaptureError::Output { message } => concat2("output error: ", message.as_str()),
        }
    }
}

} // verus!
