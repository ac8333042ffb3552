use std::cell::RefCell;

use screen_capture::diagnostics::{
    collect_diagnostics, detect_portal_item, render_error, DiagnosticStatus, PortalProbe,
};
use screen_capture::error::{CaptureError, CaptureResult};
use screen_capture::platform::{
    clipboard_command_line, clipboard_error, copy_png, detect_backend, detect_clipboard_backend,
    detect_session_type, BackendChoice, BackendSelection, ClipboardBackend, ClipboardFailure,
};
use screen_capture::x11::X11Backend;

#[test]
fn clipboard_backend_names_are_stable() {
    assert_eq!(ClipboardBackend::WlCopy.name(), "wl-copy");
    assert_eq!(ClipboardBackend::Xclip.name(), "xclip");
}

#[test]
fn session_type_prefers_the_explicit_variable() {
    assert_eq!(detect_session_type(Some("tty".into()), true, true), Some("tty".to_string()));
    assert_eq!(detect_session_type(None, true, true), Some("wayland".to_string()));
    assert_eq!(detect_session_type(None, false, true), Some("x11".to_string()));
    assert_eq!(detect_session_type(None, false, false), None);
}

#[test]
fn auto_selection_follows_the_session() {
    let connect = || -> CaptureResult<X11Backend> { Ok(X11Backend) };
    let x11 = detect_backend(BackendSelection::Auto, Some("x11".into()), &connect).unwrap();
    assert_eq!(x11.name(), "x11");
    let wayland = detect_backend(BackendSelection::Auto, Some("wayland".into()), &connect).unwrap();
    assert_eq!(wayland.name(), "xdg-desktop-portal");
    let error = detect_backend(BackendSelection::Auto, Some("tty".into()), &connect).err().expect("tty");
    assert_eq!(
        error.describe(),
        "unsupported operation: unsupported Linux session type Some(\"tty\"); expected X11 or Wayland"
    );
    let error = detect_backend(BackendSelection::Auto, None, &connect).err().expect("none");
    assert_eq!(
        error.describe(),
        "unsupported operation: unsupported Linux session type None; expected X11 or Wayland"
    );
}

#[test]
fn forced_x11_reports_connection_failure_as_unavailable() {
    let refuse = || -> CaptureResult<X11Backend> {
        Err(CaptureError::Backend { message: "failed to connect to X server: refused".into() })
    };
    let forced = detect_backend(BackendSelection::X11, None, &refuse).err().expect("forced");
    assert!(matches!(forced, CaptureError::BackendUnavailable { .. }));
    let auto = detect_backend(BackendSelection::Auto, Some("x11".into()), &refuse).err().expect("auto");
    assert!(matches!(auto, CaptureError::Backend { .. }));
    let portal = detect_backend(BackendSelection::Portal, None, &refuse).unwrap();
    assert!(matches!(portal, BackendChoice::Portal(_)));
}

#[test]
fn clipboard_tool_order_depends_on_session() {
    let both = |_: &str| true;
    assert_eq!(detect_clipboard_backend(BackendSelection::Auto, Some("x11".into()), &both).unwrap(), ClipboardBackend::Xclip);
    assert_eq!(detect_clipboard_backend(BackendSelection::Auto, Some("wayland".into()), &both).unwrap(), ClipboardBackend::WlCopy);
    assert_eq!(detect_clipboard_backend(BackendSelection::Auto, None, &both).unwrap(), ClipboardBackend::WlCopy);
    let only_xclip = |name: &str| name == "xclip";
    assert_eq!(detect_clipboard_backend(BackendSelection::Auto, Some("wayland".into()), &only_xclip).unwrap(), ClipboardBackend::Xclip);
    let error = detect_clipboard_backend(BackendSelection::Portal, None, &only_xclip).expect_err("no wl-copy");
    assert_eq!(error.describe(), "backend unavailable: wl-copy is not installed or not available in PATH");
    let none = |_: &str| false;
    let error = detect_clipboard_backend(BackendSelection::Auto, Some("x11".into()), &none).expect_err("nothing");
    assert_eq!(error.describe(), "backend unavailable: wl-copy is not installed or not available in PATH");
}

#[test]
fn copy_png_hands_the_bytes_to_the_chosen_tool() {
    let seen: RefCell<Vec<(ClipboardBackend, Vec<u8>)>> = RefCell::new(Vec::new());
    let run = |b: ClipboardBackend, bytes: &[u8]| -> CaptureResult<()> {
        seen.borrow_mut().push((b, bytes.to_vec()));
        Ok(())
    };
    let installed = |_: &str| true;
    let used = copy_png(b"png", BackendSelection::X11, None, &installed, &run).unwrap();
    assert_eq!(used, ClipboardBackend::Xclip);
    assert_eq!(seen.borrow().as_slice(), &[(ClipboardBackend::Xclip, b"png".to_vec())]);

    let failing = |b: ClipboardBackend, _: &[u8]| -> CaptureResult<()> {
        Err(clipboard_error(b, ClipboardFailure::Launch, "No such file or directory"))
    };
    let error = copy_png(b"png", BackendSelection::Portal, None, &installed, &failing).expect_err("launch");
    assert_eq!(
        error.describe(),
        "backend error: failed to launch clipboard command wl-copy: No such file or directory"
    );
    let missing = |_: &str| false;
    assert!(matches!(
        copy_png(b"png", BackendSelection::Portal, None, &missing, &run),
        Err(CaptureError::BackendUnavailable { .. })
    ));
}

#[test]
fn clipboard_command_lines() {
    assert_eq!(clipboard_command_line(ClipboardBackend::WlCopy), vec!["wl-copy", "--type", "image/png"]);
    assert_eq!(
        clipboard_command_line(ClipboardBackend::Xclip),
        vec!["xclip", "-selection", "clipboard", "-t", "image/png", "-i"]
    );
    let error = clipboard_error(ClipboardBackend::Xclip, ClipboardFailure::Write, "Broken pipe");
    assert_eq!(error.describe(), "backend error: failed to write PNG bytes to xclip: Broken pipe");
}

#[test]
fn diagnostics_rows_reflect_the_gathered_facts() {
    let d = collect_diagnostics(
        None,
        Err(CaptureError::Unsupported { message: "unsupported Linux session type None; expected X11 or Wayland".into() }),
        PortalProbe::Registered(false),
        Err(CaptureError::BackendUnavailable { message: "xclip is not installed or not available in PATH".into() }),
    );
    assert_eq!(d.session_type.status, DiagnosticStatus::Error);
    assert_eq!(d.session_type.detail, "could not infer X11 or Wayland from the current environment");
    assert_eq!(d.detected_backend.status, DiagnosticStatus::Error);
    assert_eq!(d.detected_backend.detail, "unsupported Linux session type None; expected X11 or Wayland");
    assert_eq!(d.portal_availability.status, DiagnosticStatus::Warn);
    assert_eq!(d.portal_availability.detail, "org.freedesktop.portal.Desktop is not registered on the session bus");
    assert_eq!(d.clipboard_support.status, DiagnosticStatus::Warn);
    assert_eq!(d.clipboard_support.detail, "xclip is not installed or not available in PATH");
    assert_eq!(d.multi_display.status, DiagnosticStatus::Unimplemented);
    assert_eq!(d.multi_display.detail, "planned for a later iteration");
}

#[test]
fn portal_probe_rows() {
    let ok = detect_portal_item(PortalProbe::Registered(true));
    assert_eq!(ok.status, DiagnosticStatus::Pass);
    assert_eq!(ok.detail, "org.freedesktop.portal.Desktop is reachable on the session bus");
    let bus = detect_portal_item(PortalProbe::SessionBusUnavailable("no bus".into()));
    assert_eq!(bus.detail, "failed to connect to session D-Bus: no bus");
    let proxy = detect_portal_item(PortalProbe::ProxyUnavailable("bad".into()));
    assert_eq!(proxy.detail, "failed to create D-Bus proxy: bad");
    let query = detect_portal_item(PortalProbe::QueryFailed("timeout".into()));
    assert_eq!(query.detail, "failed to query portal service ownership: timeout");
}

#[test]
fn rendered_errors_drop_the_prefix_for_session_errors() {
    assert_eq!(render_error(CaptureError::Backend { message: "m".into() }), "m");
    assert_eq!(render_error(CaptureError::EmptyImage), "captured image is empty");
    assert_eq!(render_error(CaptureError::Output { message: "m".into() }), "output error: m");
}
