//! The rows of the environment report (`doctor`).

use vstd::prelude::*;

use crate::error::{display_text, CaptureError, CaptureResult};
use crate::platform::{choice_name, clipboard_name, BackendChoice, ClipboardBackend};
use crate::text::{concat2, concat3};

verus! {

/// Represents a diagnostic check result.
#[derive(Debug, Clone, Copy, PartialEq, Eq, Structural)]
pub enum DiagnosticStatus {
    /// The capability is available.
    Pass,
    /// The capability is partially available or has known limitations.
    Warn,
    /// The capability is unavailable.
    Error,
    /// The capability is not implemented yet.
    Unimplemented,
}

/// Represents one doctor check row.
#[derive(Debug, Clone, PartialEq, Eq)]
pub struct DiagnosticItem {
    /// Human-readable check name.
    pub label: &'static str,
    /// Check status.
    pub status: DiagnosticStatus,
    /// Human-readable detail.
    pub detail: String,
}

/// Summarizes Linux desktop diagnostic signals for the current environment.
#[derive(Debug, Clone, PartialEq, Eq)]
pub struct LinuxDiagnostics {
    /// Detected session type such as `x11` or `wayland`.
    pub session_type: DiagnosticItem,
    /// Backend that `auto` selection currently resolves to.
    pub detected_backend: DiagnosticItem,
    /// Whether xdg-desktop-portal appears reachable on D-Bus.
    pub portal_availability: DiagnosticItem,
    /// Whether clipboard integration exists.
    pub clipboard_support: DiagnosticItem,
    /// Placeholder for future multi-display diagnostics.
    pub multi_display: DiagnosticItem,
}

/// What asking the session bus about the portal service found.
#[derive(Debug, Clone)]
pub enum PortalProbe {
    /// The session bus could not be reached.
    SessionBusUnavailable(String),
    /// The bus proxy could not be created.
    ProxyUnavailable(String),
    /// Asking whether the portal name has an owner failed.
    QueryFailed(String),
    /// The answer: whether the portal name has an owner.
    Registered(bool),
}

/// The text of an error as the report shows it: the bare message for
/// session, backend-availability and backend errors, the full text otherwise.
pub open spec fn rendered_error(e: CaptureError) -> Seq<char> {
    match e {
        CaptureError::Unsupported { message } => message@,
        CaptureError::BackendUnavailable { message } => message@,
        CaptureError::Backend { message } => message@,
        _ => display_text(e),
    }
}

/// Renders an error for the report.
pub fn render_error(error: CaptureError) -> (s: String)
    ensures
        s@ == rendered_error(error),
{
    match error {
        CaptureError::Unsupported { message } => message,
        CaptureError::BackendUnavailable { message } => message,
        CaptureError::Backend { message } => message,
        other => other.describe(),
    }
}

/// The row reporting the session type.
pub fn detect_session_type_item(session_type: Option<String>) -> (item: DiagnosticItem)
    ensures
        item.label@ == "Session type"@,
        match session_type {
            Some(s) => item.status == DiagnosticStatus::Pass && item.detail@ == s@,
            None => item.status == DiagnosticStatus::Error && item.detail@
                == "could not infer X11 or Wayland from the current environment"@,
        },
{
    match session_type {
        Some(session_type) => DiagnosticItem {
            label: "Session type",
            status: DiagnosticStatus::Pass,
            detail: session_type,
        },
        None => DiagnosticItem {
            label: "Session type",
            status: DiagnosticStatus::Error,
            detail: String::from_str("could not infer X11 or Wayland from the current environment"),
        },
    }
}

/// The row reporting the backend that automatic selection resolves to.
pub fn detect_backend_item(detected: CaptureResult<BackendChoice>) -> (item: DiagnosticItem)
    ensures
        item.label@ == "Detected backend"@,
        match detected {
            Ok(choice) => item.status == DiagnosticStatus::Pass && item.detail@ == choice_name(choice),
            Err(e) => item.status == DiagnosticStatus::Error && item.detail@ == rendered_error(e),
        },
{
    match detected {
        Ok(choice) => DiagnosticItem {
            label: "Detected backend",
            status: DiagnosticStatus::Pass,
            detail: String::from_str(choice.name()),
        },
        Err(error) => DiagnosticItem {
            label: "Detected backend",
            status: DiagnosticStatus::Error,
            detail: render_error(error),
        },
    }
}

/// The bus name of the desktop portal service.
pub open spec fn portal_bus_name() -> Seq<char> {
    "org.freedesktop.portal.Desktop"@
}

/// The status and detail of the portal row for a probe result.
pub open spec fn portal_row(probe: PortalProbe) -> (DiagnosticStatus, Seq<char>) {
    match probe {
        PortalProbe::Registered(true) => (
            DiagnosticStatus::Pass,
            portal_bus_name() + " is reachable on the session bus"@,
        ),
        PortalProbe::Registered(false) => (
            DiagnosticStatus::Warn,
            portal_bus_name() + " is not registered on the session bus"@,
        ),
        PortalProbe::QueryFailed(e) => (
            DiagnosticStatus::Warn,
            "failed to query portal service ownership: "@ + e@,
        ),
        PortalProbe::ProxyUnavailable(e) => (DiagnosticStatus::Warn, "failed to create D-Bus proxy: "@ + e@),
        PortalProbe::SessionBusUnavailable(e) => (
            DiagnosticStatus::Warn,
            "failed to connect to session D-Bus: "@ + e@,
        ),
    }
}

/// The row reporting whether the desktop portal is reachable.
pub fn detect_portal_item(probe: PortalProbe) -> (item: DiagnosticItem)
    ensures
        item.label@ == "Portal availability"@,
        (item.status, item.detail@) == portal_row(probe),
{
    let (status, detail) = match probe {
        PortalProbe::Registered(true) => (
            DiagnosticStatus::Pass,
            concat2("org.freedesktop.portal.Desktop", " is reachable on the session bus"),
        ),
        PortalProbe::Registered(false) => (
            DiagnosticStatus::Warn,
            concat2("org.freedesktop.portal.Desktop", " is not registered on the session bus"),
        ),
        PortalProbe::QueryFailed(e) => (
            DiagnosticStatus::Warn,
            concat2("failed to query portal service ownership: ", e.as_str()),
        ),
        PortalProbe::ProxyUnavailable(e) => (
            DiagnosticStatus::Warn,
            concat2("failed to create D-Bus proxy: ", e.as_str()),
        ),
        PortalProbe::SessionBusUnavailable(e) => (
            DiagnosticStatus::Warn,
            concat2("failed to connect to session D-Bus: ", e.as_str()),
        ),
    };
    DiagnosticItem { label: "Portal availability", status, detail }
}

/// The row reporting clipboard support.
pub fn detect_clipboard_item(clipboard: CaptureResult<ClipboardBackend>) -> (item: DiagnosticItem)
    ensures
        item.label@ == "Clipboard support"@,
        match clipboard {
            Ok(b) => item.status == DiagnosticStatus::Pass && item.detail@ == "available via "@
                + clipboard_name(b),
            Err(e) => item.status == DiagnosticStatus::Warn && item.detail@ == rendered_error(e),
        },
{
    match clipboard {
        Ok(backend) => DiagnosticItem {
            label: "Clipboard support",
            status: DiagnosticStatus::Pass,
            detail: concat2("available via ", backend.name()),
        },
        Err(error) => DiagnosticItem {
            label: "Clipboard support",
            status: DiagnosticStatus::Warn,
            detail: render_error(error),
        },
    }
}

/// Assembles the environment report from the facts gathered about the
/// session: its type, the backend automatic selection resolves to, the
/// portal probe and the clipboard tool found.
pub fn collect_diagnostics(
    session_type: Option<String>,
    detected: CaptureResult<BackendChoice>,
    portal: PortalProbe,
    clipboard: CaptureResult<ClipboardBackend>,
) -> (d: LinuxDiagnostics)
    ensures
        d.session_type.label@ == "Session type"@,
        match session_type {
            Some(s) => d.session_type.status == DiagnosticStatus::Pass && d.session_type.detail@ == s@,
            None => d.session_type.status == DiagnosticStatus::Error && d.session_type.detail@
                == "could not infer X11 or Wayland from the current environment"@,
        },
        d.detected_backend.label@ == "Detected backend"@,
        match detected {
            Ok(choice) => d.detected_backend.status == DiagnosticStatus::Pass
                && d.detected_backend.detail@ == choice_name(choice),
            Err(e) => d.detected_backend.status == DiagnosticStatus::Error
                && d.detected_backend.detail@ == rendered_error(e),
        },
        d.portal_availability.label@ == "Portal availability"@,
        (d.portal_availability.status, d.portal_availability.detail@) == portal_row(portal),
        d.clipboard_support.label@ == "Clipboard support"@,
        match clipboard {
            Ok(b) => d.clipboard_support.status == DiagnosticStatus::Pass && d.clipboard_support.detail@
                == "available via "@ + clipboard_name(b),
            Err(e) => d.clipboard_support.status == DiagnosticStatus::Warn
                && d.clipboard_support.detail@ == rendered_error(e),
        },
        d.multi_display.label@ == "Multi-display info"@,
        d.multi_display.status == DiagnosticStatus::Unimplemented,
        d.multi_display.detail@ == "planned for a later iteration"@,
{
    LinuxDiagnostics {
        session_type: detect_session_type_item(session_type),
        detected_backend: detect_backend_item(detected),
        portal_availability: detect_portal_item(portal),
        clipboard_support: detect_clipboard_item(clipboard),
        multi_display: DiagnosticItem {
            label: "Multi-display info",
            status: DiagnosticStatus::Unimplemented,
            detail: String::from_str("planned for a later iteration"),
        },
    }
}

} // verus!
