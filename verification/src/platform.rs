//! Choosing a capture backend and a clipboard tool for the Linux session.

use vstd::prelude::*;

use crate::error::{CaptureError, CaptureResult};
use crate::paths::answered;
use crate::text::{concat3, debug_repr, debug_text};
use crate::x11::X11Backend;

verus! {

/// Controls how the Linux backend is selected.
#[derive(Debug, Clone, Copy, PartialEq, Eq, Structural)]
pub enum BackendSelection {
    /// Pick a backend based on the current Linux session environment.
    Auto,
    /// Force the X11 backend.
    X11,
    /// Force the portal backend.
    Portal,
}

impl Default for BackendSelection {
    fn default() -> (s: Self)
        ensures
            s == BackendSelection::Auto,
    {
        BackendSelection::Auto
    }
}

/// Wayland-oriented backend that captures screenshots via `xdg-desktop-portal`.
#[derive(Debug, Default, Clone, Copy)]
pub struct PortalBackend;

impl PortalBackend {
    /// Creates a portal-backed capture backend.
    pub fn new() -> (b: Self) {
        PortalBackend
    }

    /// Returns the stable identifier of this backend.
    pub fn backend_name(&self) -> (name: &'static str)
        ensures
            name@ == "xdg-desktop-portal"@,
    {
        "xdg-desktop-portal"
    }
}

/// Whether `s` holds exactly the text `lit`.
fn text_is(s: &String, lit: &str) -> (b: bool)
    ensures
        b == (s@ == lit@),
{
    let other = String::from_str(lit);
    *s == other
}

/// The session type the environment indicates: `XDG_SESSION_TYPE` when set,
/// otherwise `wayland` when `WAYLAND_DISPLAY` is set, otherwise `x11` when
/// `DISPLAY` is set.
pub open spec fn session_type_spec(xdg_session_type: Option<Seq<char>>, wayland_display: bool, display: bool) -> Option<
    Seq<char>,
> {
    match xdg_session_type {
        Some(s) => Some(s),
        None => if wayland_display {
            Some("wayland"@)
        } else if display {
            Some("x11"@)
        } else {
            None
        },
    }
}

/// Infers the Linux session type from the value of `XDG_SESSION_TYPE` and
/// from whether `WAYLAND_DISPLAY` and `DISPLAY` are set.
pub fn detect_session_type(xdg_session_type: Option<String>, wayland_display: bool, display: bool) -> (r:
    Option<String>)
    ensures
        r matches Some(s) ==> session_type_spec(
            match xdg_session_type {
                Some(x) => Some(x@),
                None => None,
            },
            wayland_display,
            display,
        ) == Some(s@),
        r is None ==> session_type_spec(
            match xdg_session_type {
                Some(x) => Some(x@),
                None => None,
            },
            wayland_display,
            display,
        ) is None,
{
    match xdg_session_type {
        Some(s) => Some(s),
        None => if wayland_display {
            Some(String::from_str("wayland"))
        } else if display {
            Some(String::from_str("x11"))
        } else {
            None
        },
    }
}

/// A selected capture backend.
#[derive(Debug, Clone, Copy)]
pub enum BackendChoice {
    /// The X11 backend, connected to the X server.
    X11(X11Backend),
    /// The portal backend.
    Portal(PortalBackend),
}

/// The identifier of the backend a choice stands for.
pub open spec fn choice_name(choice: BackendChoice) -> Seq<char> {
    match choice {
        BackendChoice::X11(_) => "x11"@,
        BackendChoice::Portal(_) => "xdg-desktop-portal"@,
    }
}

impl BackendChoice {
    /// Returns the stable identifier of the chosen backend.
    pub fn name(&self) -> (name: &'static str)
        ensures
            name@ == choice_name(*self),
    {
        match self {
            BackendChoice::X11(b) => b.backend_name(),
            BackendChoice::Portal(b) => b.backend_name(),
        }
    }
}

/// The `Debug` text of an optional session type: `None` or `Some("...")`.
pub open spec fn session_debug(session: Option<Seq<char>>) -> Seq<char> {
    match session {
        Some(s) => "Some("@ + debug_repr(s) + ")"@,
        None => "None"@,
    }
}

/// The message of the error for a session that is neither X11 nor Wayland.
pub open spec fn unsupported_session_message(session: Option<Seq<char>>) -> Seq<char> {
    "unsupported Linux session type "@ + session_debug(session) + "; expected X11 or Wayland"@
}

/// What connecting to the X server yields as a backend choice; when the
/// X11 backend was asked for explicitly, a backend error reads as the
/// backend being unavailable.
pub open spec fn x11_outcome(connected: CaptureResult<X11Backend>, forced: bool) -> CaptureResult<
    BackendChoice,
> {
    match connected {
        Ok(b) => Ok(BackendChoice::X11(b)),
        Err(CaptureError::Backend { message }) => if forced {
            Err(CaptureError::BackendUnavailable { message })
        } else {
            Err(CaptureError::Backend { message })
        },
        Err(e) => Err(e),
    }
}

/// `connect` returned `connected` when called.
pub open spec fn connect_returned<F: Fn() -> CaptureResult<X11Backend>>(
    connect: F,
    connected: CaptureResult<X11Backend>,
) -> bool {
    call_ensures(connect, (), connected)
}

/// What `detect_backend` may return.
pub open spec fn detect_backend_spec<F: Fn() -> CaptureResult<X11Backend>>(
    selection: BackendSelection,
    session: Option<Seq<char>>,
    connect: F,
    r: CaptureResult<BackendChoice>,
) -> bool {
    match selection {
        BackendSelection::X11 => exists|c: CaptureResult<X11Backend>|
            #[trigger] connect_returned(connect, c) && r == x11_outcome(c, true),
        BackendSelection::Portal => r matches Ok(BackendChoice::Portal(_)),
        BackendSelection::Auto => if session == Some("x11"@) {
            exists|c: CaptureResult<X11Backend>|
                #[trigger] connect_returned(connect, c) && r == x11_outcome(c, false)
        } else if session == Some("wayland"@) {
            r matches Ok(BackendChoice::Portal(_))
        } else {
            r matches Err(CaptureError::Unsupported { message }) && message@
                == unsupported_session_message(session)
        },
    }
}

/// Picks the capture backend for `selection` in a session of type
/// `session_type`, calling `connect_x11` to reach the X server when the
/// X11 backend is chosen.
pub fn detect_backend<F: Fn() -> CaptureResult<X11Backend>>(
    selection: BackendSelection,
    session_type: Option<String>,
    connect_x11: &F,
) -> (r: CaptureResult<BackendChoice>)
    requires
        call_requires(*connect_x11, ()),
    ensures
        detect_backend_spec(
            selection,
            match session_type {
                Some(s) => Some(s@),
                None => None,
            },
            *connect_x11,
            r,
        ),
{
    match selection {
        BackendSelection::X11 => {
            let connected = connect_x11();
            proof {
                assert(connect_returned(*connect_x11, connected));
            }
            match connected {
                Ok(b) => Ok(BackendChoice::X11(b)),
                Err(CaptureError::Backend { message }) => Err(CaptureError::BackendUnavailable { message }),
                Err(e) => Err(e),
            }
        },
        BackendSelection::Portal => Ok(BackendChoice::Portal(PortalBackend::new())),
        BackendSelection::Auto => {
            let is_x11 = match &session_type {
                Some(s) => text_is(s, "x11"),
                None => false,
            };
            let is_wayland = match &session_type {
                Some(s) => text_is(s, "wayland"),
                None => false,
            };
            if is_x11 {
                let connected = connect_x11();
                proof {
                    assert(connect_returned(*connect_x11, connected));
                }
                match connected {
                    Ok(b) => Ok(BackendChoice::X11(b)),
                    Err(e) => Err(e),
                }
            } else if is_wayland {
                Ok(BackendChoice::Portal(PortalBackend::new()))
            } else {
                let shown = match &session_type {
                    Some(s) => {
                        let quoted = debug_text(s.as_str());
                        concat3("Some(", quoted.as_str(), ")")
                    },
                    None => String::from_str("None"),
                };
                Err(CaptureError::Unsupported {
                    message: concat3("unsupported Linux session type ", shown.as_str(), "; expected X11 or Wayland"),
                })
            }
        },
    }
}

/// Represents the clipboard mechanism available on Linux.
#[derive(Debug, Clone, Copy, PartialEq, Eq, Structural)]
pub enum ClipboardBackend {
    /// Use `wl-copy` for Wayland clipboard integration.
    WlCopy,
    /// Use `xclip` for X11 clipboard integration.
    Xclip,
}

/// The command name of a clipboard tool.
pub open spec fn clipboard_name(backend: ClipboardBackend) -> Seq<char> {
    match backend {
        ClipboardBackend::WlCopy => "wl-copy"@,
        ClipboardBackend::Xclip => "xclip"@,
    }
}

/// The message of the error for a clipboard tool that is not installed.
pub open spec fn missing_tool_message(backend: ClipboardBackend) -> Seq<char> {
    clipboard_name(backend) + " is not installed or not available in PATH"@
}

impl ClipboardBackend {
    /// Returns a stable backend identifier for diagnostics.
    pub fn name(self) -> (name: &'static str)
        ensures
            name@ == clipboard_name(self),
    {
        match self {
            ClipboardBackend::WlCopy => "wl-copy",
            ClipboardBackend::Xclip => "xclip",
        }
    }
}

/// The clipboard tools to try, in order, for a selection and session type.
pub open spec fn clipboard_order(selection: BackendSelection, session: Option<Seq<char>>) -> (
    ClipboardBackend,
    Option<ClipboardBackend>,
) {
    match selection {
        BackendSelection::Portal => (ClipboardBackend::WlCopy, None),
        BackendSelection::X11 => (ClipboardBackend::Xclip, None),
        BackendSelection::Auto => if session == Some("x11"@) {
            (ClipboardBackend::Xclip, Some(ClipboardBackend::WlCopy))
        } else {
            (ClipboardBackend::WlCopy, Some(ClipboardBackend::Xclip))
        },
    }
}

/// `r` is the outcome of trying `backend` alone, given the answers of `is_installed`.
pub open spec fn try_tool_spec<F: Fn(&str) -> bool>(
    is_installed: F,
    backend: ClipboardBackend,
    r: CaptureResult<ClipboardBackend>,
) -> bool {
    ||| answered(is_installed, clipboard_name(backend), true) && r == Ok::<
        ClipboardBackend,
        CaptureError,
    >(backend)
    ||| answered(is_installed, clipboard_name(backend), false) && (r matches Err(
        CaptureError::BackendUnavailable { message },
    ) && message@ == missing_tool_message(backend))
}

/// What `detect_clipboard_backend` may return: the first tool of the order
/// that is installed, or the error about the last one tried.
pub open spec fn clipboard_spec<F: Fn(&str) -> bool>(
    selection: BackendSelection,
    session: Option<Seq<char>>,
    is_installed: F,
    r: CaptureResult<ClipboardBackend>,
) -> bool {
    let (first, second) = clipboard_order(selection, session);
    match second {
        None => try_tool_spec(is_installed, first, r),
        Some(fallback) => {
            ||| answered(is_installed, clipboard_name(first), true) && r == Ok::<
                ClipboardBackend,
                CaptureError,
            >(first)
            ||| answered(is_installed, clipboard_name(first), false) && try_tool_spec(
                is_installed,
                fallback,
                r,
            )
        },
    }
}

/// Checks one clipboard tool.
fn try_tool<F: Fn(&str) -> bool>(backend: ClipboardBackend, is_installed: &F) -> (r: CaptureResult<
    ClipboardBackend,
>)
    requires
        forall|s: &str| call_requires(*is_installed, (s,)),
    ensures
        try_tool_spec(*is_installed, backend, r),
{
    let name = backend.name();
    if is_installed(name) {
        Ok(backend)
    } else {
        Err(CaptureError::BackendUnavailable {
            message: crate::text::concat2(name, " is not installed or not available in PATH"),
        })
    }
}

/// Picks the clipboard tool for `selection` in a session of type
/// `session_type`, asking `is_installed` whether a command is available.
pub fn detect_clipboard_backend<F: Fn(&str) -> bool>(
    selection: BackendSelection,
    session_type: Option<String>,
    is_installed: &F,
) -> (r: CaptureResult<ClipboardBackend>)
    requires
        forall|s: &str| call_requires(*is_installed, (s,)),
    ensures
        clipboard_spec(
            selection,
            match session_type {
                Some(s) => Some(s@),
                None => None,
            },
            *is_installed,
            r,
        ),
{
    match selection {
        BackendSelection::Portal => try_tool(ClipboardBackend::WlCopy, is_installed),
        BackendSelection::X11 => try_tool(ClipboardBackend::Xclip, is_installed),
        BackendSelection::Auto => {
            let is_x11 = match &session_type {
                Some(s) => text_is(s, "x11"),
                None => false,
            };
            let (first, fallback) = if is_x11 {
                (ClipboardBackend::Xclip, ClipboardBackend::WlCopy)
            } else {
                (ClipboardBackend::WlCopy, ClipboardBackend::Xclip)
            };
            match try_tool(first, is_installed) {
                Ok(b) => Ok(b),
                Err(_) => try_tool(fallback, is_installed),
            }
        },
    }
}


/// The clipboard tool picked for the selection and session, then `run`
/// handed the bytes, gave `r`: the tool on success, else the detection
/// error or the error `run` returned.
pub open spec fn copy_png_spec<F: Fn(&str) -> bool, G: Fn(ClipboardBackend, &[u8]) -> CaptureResult<()>>(
    selection: BackendSelection,
    session: Option<Seq<char>>,
    is_installed: F,
    run: G,
    bytes: &[u8],
    r: CaptureResult<ClipboardBackend>,
) -> bool {
    match r {
        Ok(b) => clipboard_spec(selection, session, is_installed, Ok(b)) && exists|out: CaptureResult<()>|
            #[trigger] call_ensures(run, (b, bytes), out) && out is Ok,
        Err(e) => {
            ||| clipboard_spec(selection, session, is_installed, Err(e))
            ||| exists|b: ClipboardBackend|
                clipboard_spec(selection, session, is_installed, Ok(b)) && #[trigger] call_ensures(
                    run,
                    (b, bytes),
                    Err::<(), CaptureError>(e),
                )
        },
    }
}

/// Copies PNG bytes to the desktop clipboard: picks the clipboard tool as
/// `detect_clipboard_backend` does, then has `run` feed it the bytes.
pub fn copy_png<F: Fn(&str) -> bool, G: Fn(ClipboardBackend, &[u8]) -> CaptureResult<()>>(
    bytes: &[u8],
    selection: BackendSelection,
    session_type: Option<String>,
    is_installed: &F,
    run: &G,
) -> (r: CaptureResult<ClipboardBackend>)
    requires
        forall|s: &str| call_requires(*is_installed, (s,)),
        forall|b: ClipboardBackend| call_requires(*run, (b, bytes)),
    ensures
        copy_png_spec(
            selection,
            match session_type {
                Some(s) => Some(s@),
                None => None,
            },
            *is_installed,
            *run,
            bytes,
            r,
        ),
{
    let backend = match detect_clipboard_backend(selection, session_type, is_installed) {
        Ok(b) => b,
        Err(e) => return Err(e),
    };
    let ran = run(backend, bytes);
    match ran {
        Ok(()) => {
            proof {
                assert(call_ensures(*run, (backend, bytes), ran));
            }
            Ok(backend)
        },
        Err(e) => {
            proof {
                assert(call_ensures(*run, (backend, bytes), Err::<(), CaptureError>(e)));
            }
            Err(e)
        },
    }
}

/// The command line that feeds PNG data on standard input to a clipboard tool.
pub open spec fn clipboard_command_spec(backend: ClipboardBackend) -> Seq<Seq<char>> {
    match backend {
        ClipboardBackend::WlCopy => seq!["wl-copy"@, "--type"@, "image/png"@],
        ClipboardBackend::Xclip => seq!["xclip"@, "-selection"@, "clipboard"@, "-t"@, "image/png"@, "-i"@],
    }
}

/// Returns the program and arguments that put PNG data from standard input
/// on the clipboard.
pub fn clipboard_command_line(backend: ClipboardBackend) -> (v: Vec<&'static str>)
    ensures
        v@.len() == clipboard_command_spec(backend).len(),
        forall|i: int| 0 <= i < v@.len() ==> #[trigger] v@[i]@ == clipboard_command_spec(backend)[i],
{
    let mut v: Vec<&'static str> = Vec::new();
    match backend {
        ClipboardBackend::WlCopy => {
            v.push("wl-copy");
            v.push("--type");
            v.push("image/png");
        },
        ClipboardBackend::Xclip => {
            v.push("xclip");
            v.push("-selection");
            v.push("clipboard");
            v.push("-t");
            v.push("image/png");
            v.push("-i");
        },
    }
    v
}

/// The step of feeding the clipboard tool that failed.
#[derive(Debug, Clone, Copy, PartialEq, Eq, Structural)]
pub enum ClipboardFailure {
    /// The tool could not be started.
    Launch,
    /// The bytes could not be written to its input.
    Write,
}

/// The message for a failed clipboard step.
pub open spec fn clipboard_failure_message(backend: ClipboardBackend, failure: ClipboardFailure, error: Seq<char>) -> Seq<
    char,
> {
    match failure {
        ClipboardFailure::Launch => "failed to launch clipboard command "@ + clipboard_name(backend) + ": "@
            + error,
        ClipboardFailure::Write => "failed to write PNG bytes to "@ + clipboard_name(backend) + ": "@ + error,
    }
}

/// The backend error for a failed clipboard step with the system's error text.
pub fn clipboard_error(backend: ClipboardBackend, failure: ClipboardFailure, error: &str) -> (e: CaptureError)
    ensures
        e matches CaptureError::Backend { message } && message@ == clipboard_failure_message(
            backend,
            failure,
            error@,
        ),
{
    let prefix = match failure {
        ClipboardFailure::Launch => "failed to launch clipboard command ",
        ClipboardFailure::Write => "failed to write PNG bytes to ",
    };
    let mut message = concat3(prefix, backend.name(), ": ");
    message.append(error);
    proof {
        reveal_strlit("failed to launch clipboard command ");
        reveal_strlit("failed to write PNG bytes to ");
    }
    CaptureError::Backend { message }
}

} // verus!
