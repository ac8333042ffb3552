//! Core models and decision logic for a Linux screenshot tool: pixel
//! buffers and cropping, the capture -> encode -> save pipeline, output
//! path selection, X11 pixel decoding and region selection, the portal's
//! screenshot files, backend and clipboard selection, the environment
//! report, the tray hotkey, and command-line decisions.

pub mod text;
pub mod error;
pub mod model;
pub mod paths;
pub mod backend;
pub mod output;
pub mod x11;
pub mod platform;
pub mod diagnostics;
pub mod parse;
pub mod cli;
pub mod utils;
pub mod portal;
pub mod hotkey;
pub mod editor;
