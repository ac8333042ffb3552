//! Decisions of the command-line front end: which capture to request, which
//! actions to take, how region arguments are read and how errors and
//! report rows are shown.

use vstd::prelude::*;

use crate::diagnostics::{DiagnosticItem, DiagnosticStatus, LinuxDiagnostics};
use crate::error::{CaptureError, CaptureResult};
use crate::model::{
    zero_region_message, CaptureArea, CaptureRegion, CaptureRequest, ImageFormat, SaveConflictStrategy,
    SaveOptions,
};
use crate::platform::{clipboard_name, ClipboardBackend};
use crate::utils::{build_output_path, default_filename, default_filename_of, output_path_of};
use crate::parse::{chars_of, parse_u32, parse_u32_spec, split_chars, split_fields, trim, trim_chars};
use crate::text::{concat2, concat3, debug_repr, debug_text};

verus! {

/// What a capture command does with the encoded image.
#[derive(Debug, Clone, Copy, PartialEq, Eq, Structural)]
pub struct CaptureActions {
    /// Write the image to a file.
    pub save: bool,
    /// Put the image on the clipboard.
    pub copy: bool,
}

/// Decides what to do with a capture: copying alone skips saving unless an
/// output path was given; without `--copy` the image is always saved.
pub fn build_actions(has_output: bool, save: bool, copy: bool) -> (a: CaptureActions)
    ensures
        a.copy == copy,
        a.save == (save || has_output || !copy),
        a.save || a.copy,
        has_output ==> a.save,
        save ==> a.save,
{
    if copy && !save && !has_output {
        return CaptureActions { save: false, copy: true };
    }
    CaptureActions { save: save || has_output || !copy, copy }
}

/// The message for conflicting capture modes.
pub open spec fn conflicting_modes_message() -> Seq<char> {
    "use only one of --fullscreen, --region, or --select"@
}

/// How many of the capture modes were asked for explicitly.
pub open spec fn explicit_mode_count(fullscreen: bool, region: Option<CaptureRegion>, select: bool) -> int {
    (if fullscreen { 1int } else { 0int }) + (if region is Some { 1int } else { 0int }) + (if select {
        1int
    } else {
        0int
    })
}

/// Builds the capture request from the mode flags; at most one may be set,
/// and none means full screen.
pub fn build_request(fullscreen: bool, region: Option<CaptureRegion>, select: bool) -> (r:
    CaptureResult<CaptureRequest>)
    ensures
        r is Err <==> explicit_mode_count(fullscreen, region, select) > 1,
        r matches Err(e) ==> e matches CaptureError::InvalidRequest { message }
            && message@ == conflicting_modes_message(),
        r matches Ok(req) ==> req.area == (match region {
            Some(reg) => CaptureArea::Region(reg),
            None => if select {
                CaptureArea::InteractiveRegion
            } else {
                CaptureArea::Fullscreen
            },
        }),
{
    let explicit_modes: usize = (if fullscreen { 1usize } else { 0usize }) + (if region.is_some() {
        1usize
    } else {
        0usize
    }) + (if select { 1usize } else { 0usize });
    if explicit_modes > 1 {
        return Err(CaptureError::InvalidRequest {
            message: String::from_str("use only one of --fullscreen, --region, or --select"),
        });
    }
    if let Some(region) = region {
        return Ok(CaptureRequest::region(region));
    }
    if select {
        return Ok(CaptureRequest::interactive_region());
    }
    Ok(CaptureRequest::fullscreen())
}

/// The message for a region argument that does not have four fields.
pub open spec fn region_format_message() -> Seq<char> {
    "expected region format x,y,width,height"@
}

/// The message for a region field that is not a `u32`.
pub open spec fn invalid_field_message(label: Seq<char>, value: Seq<char>) -> Seq<char> {
    "invalid "@ + label + " value in region "@ + debug_repr(value)
}

/// The value of field `k` of a region argument, if it is a `u32`.
pub open spec fn region_field(value: Seq<char>, k: int) -> Option<u32> {
    parse_u32_spec(trim(split_fields(value, ',')[k]))
}

/// The outcome of reading `x,y,width,height`: fields are split at commas,
/// trimmed and read as `u32` in order, the first bad one reported; the
/// region must then be non-empty.
pub open spec fn parse_region_spec(value: Seq<char>) -> Result<CaptureRegion, Seq<char>> {
    if split_fields(value, ',').len() != 4 {
        Err(region_format_message())
    } else if region_field(value, 0) is None {
        Err(invalid_field_message("x"@, value))
    } else if region_field(value, 1) is None {
        Err(invalid_field_message("y"@, value))
    } else if region_field(value, 2) is None {
        Err(invalid_field_message("width"@, value))
    } else if region_field(value, 3) is None {
        Err(invalid_field_message("height"@, value))
    } else {
        let x = region_field(value, 0)->0;
        let y = region_field(value, 1)->0;
        let width = region_field(value, 2)->0;
        let height = region_field(value, 3)->0;
        if width == 0 || height == 0 {
            Err("invalid capture request: "@ + zero_region_message())
        } else {
            Ok(CaptureRegion { x, y, width, height })
        }
    }
}

/// A region-parsing result with the error message taken by its text.
pub open spec fn region_result_view(r: Result<CaptureRegion, String>) -> Result<CaptureRegion, Seq<char>> {
    match r {
        Ok(region) => Ok(region),
        Err(message) => Err(message@),
    }
}

fn invalid_field_error(label: &str, value: &str) -> (s: String)
    ensures
        s@ == invalid_field_message(label@, value@),
{
    let quoted = debug_text(value);
    let mut s = concat3("invalid ", label, " value in region ");
    s.append(quoted.as_str());
    proof {
        reveal_strlit("invalid ");
        reveal_strlit(" value in region ");
    }
    s
}

/// Reads a region argument of the form `x,y,width,height`.
pub fn parse_region(value: &str) -> (r: Result<CaptureRegion, String>)
    ensures
        region_result_view(r) == parse_region_spec(value@),
{
    let chars = chars_of(value);
    let parts = split_chars(&chars, ',');
    if parts.len() != 4 {
        return Err(String::from_str("expected region format x,y,width,height"));
    }
    let x = match parse_u32(&trim_chars(&parts[0])) {
        Some(v) => v,
        None => return Err(invalid_field_error("x", value)),
    };
    let y = match parse_u32(&trim_chars(&parts[1])) {
        Some(v) => v,
        None => return Err(invalid_field_error("y", value)),
    };
    let width = match parse_u32(&trim_chars(&parts[2])) {
        Some(v) => v,
        None => return Err(invalid_field_error("width", value)),
    };
    let height = match parse_u32(&trim_chars(&parts[3])) {
        Some(v) => v,
        None => return Err(invalid_field_error("height", value)),
    };
    match CaptureRegion::new(x, y, width, height) {
        Ok(region) => Ok(region),
        Err(error) => {
            let text = error.describe();
            Err(text)
        },
    }
}

/// The text shown to users for an error that ends a command.
pub open spec fn friendly_text(e: CaptureError) -> Seq<char> {
    match e {
        CaptureError::InvalidRequest { message } => "invalid capture request: "@ + message@,
        CaptureError::Cancelled { message } => "capture cancelled: "@ + message@,
        CaptureError::Unsupported { message } => "current session does not support this operation: "@
            + message@,
        CaptureError::BackendUnavailable { message } => "requested backend is unavailable: "@
            + message@,
        CaptureError::InvalidOutputPath { path } => "invalid output path: "@ + path@,
        CaptureError::EmptyImage => "capture backend returned empty image data"@,
        CaptureError::InvalidImageBuffer { .. } => "capture backend returned malformed image data"@,
        CaptureError::Backend { message } => "capture backend failed: "@ + message@,
        CaptureError::Encoding { message } => "failed to encode PNG image: "@ + message@,
        CaptureError::Output { message } => "failed to save screenshot: "@ + message@,
    }
}

/// Renders an error the way the command line reports it.
pub fn friendly_error_message(error: &CaptureError) -> (s: String)
    ensures
        s@ == friendly_text(*error),
{
    match error {
        CaptureError::InvalidRequest { message } => concat2("invalid capture request: ", message.as_str()),
        CaptureError::Cancelled { message } => concat2("capture cancelled: ", message.as_str()),
        CaptureError::Unsupported { message } => concat2(
            "current session does not support this operation: ",
            message.as_str(),
        ),
        CaptureError::BackendUnavailable { message } => concat2(
            "requested backend is unavailable: ",
            message.as_str(),
        ),
        CaptureError::InvalidOutputPath { path } => concat2("invalid output path: ", path.as_str()),
        CaptureError::EmptyImage => String::from_str("capture backend returned empty image data"),
        CaptureError::InvalidImageBuffer { .. } => String::from_str(
            "capture backend returned malformed image data",
        ),
        CaptureError::Backend { message } => concat2("capture backend failed: ", message.as_str()),
        CaptureError::Encoding { message } => concat2("failed to encode PNG image: ", message.as_str()),
        CaptureError::Output { message } => concat2("failed to save screenshot: ", message.as_str()),
    }
}

/// The short tag shown for a report status.
pub open spec fn status_tag(status: DiagnosticStatus) -> Seq<char> {
    match status {
        DiagnosticStatus::Pass => "ok"@,
        DiagnosticStatus::Warn => "warn"@,
        DiagnosticStatus::Error => "error"@,
        DiagnosticStatus::Unimplemented => "todo"@,
    }
}

/// Returns the short tag for a report status.
pub fn status_label(status: &DiagnosticStatus) -> (s: &'static str)
    ensures
        s@ == status_tag(*status),
{
    match status {
        DiagnosticStatus::Pass => "ok",
        DiagnosticStatus::Warn => "warn",
        DiagnosticStatus::Error => "error",
        DiagnosticStatus::Unimplemented => "todo",
    }
}


/// What probing the output directory found.
#[derive(Debug, Clone)]
pub enum OutputDirProbe {
    /// The directory could not be created; the system's error text.
    CreateFailed(String),
    /// A probe file could not be written; the system's error text.
    WriteFailed(String),
    /// A probe file was written.
    Writable,
}

/// The status and detail of the output-directory row.
pub open spec fn output_dir_row(dir: Seq<char>, probe: OutputDirProbe) -> (DiagnosticStatus, Seq<char>) {
    match probe {
        OutputDirProbe::CreateFailed(e) => (DiagnosticStatus::Error, dir + " is not usable: "@ + e@),
        OutputDirProbe::WriteFailed(e) => (DiagnosticStatus::Error, dir + " is not writable: "@ + e@),
        OutputDirProbe::Writable => (DiagnosticStatus::Pass, dir + " is writable"@),
    }
}

/// The report row for the output directory `dir` (as displayed).
pub fn output_dir_item(dir: &str, probe: OutputDirProbe) -> (item: DiagnosticItem)
    ensures
        item.label@ == "Output directory"@,
        (item.status, item.detail@) == output_dir_row(dir@, probe),
{
    match probe {
        OutputDirProbe::CreateFailed(e) => DiagnosticItem {
            label: "Output directory",
            status: DiagnosticStatus::Error,
            detail: concat3(dir, " is not usable: ", e.as_str()),
        },
        OutputDirProbe::WriteFailed(e) => DiagnosticItem {
            label: "Output directory",
            status: DiagnosticStatus::Error,
            detail: concat3(dir, " is not writable: ", e.as_str()),
        },
        OutputDirProbe::Writable => DiagnosticItem {
            label: "Output directory",
            status: DiagnosticStatus::Pass,
            detail: concat2(dir, " is writable"),
        },
    }
}

/// `n` spaces.
pub open spec fn spaces(n: nat) -> Seq<char>
    decreases n,
{
    if n == 0 {
        Seq::empty()
    } else {
        spaces((n - 1) as nat).push(' ')
    }
}

/// `s` padded with spaces on the right to `width` characters, as the
/// formatter's `{:<width}` does.
pub open spec fn pad_right(s: Seq<char>, width: nat) -> Seq<char> {
    if s.len() >= width {
        s
    } else {
        s + spaces((width - s.len()) as nat)
    }
}

fn push_padded(out: &mut String, s: &str, width: usize)
    ensures
        final(out)@ == old(out)@ + pad_right(s@, width as nat),
{
    let n = s.unicode_len();
    out.append(s);
    let mut k = n;
    proof {
        assert(old(out)@ + s@ =~= old(out)@ + s@ + spaces(0));
    }
    while k < width
        invariant
            n == s@.len(),
            n <= k,
            n < width ==> k <= width,
            n >= width ==> k == n,
            out@ == old(out)@ + s@ + spaces((k - n) as nat),
        decreases width - k,
    {
        out.append(" ");
        proof {
            reveal_strlit(" ");
            assert(old(out)@ + s@ + spaces((k - n) as nat) + " "@ =~= old(out)@ + s@ + spaces(
                (k + 1 - n) as nat,
            ));
        }
        k = k + 1;
    }
    proof {
        if n >= width {
            assert(old(out)@ + s@ + spaces(0) =~= old(out)@ + s@);
        } else {
            assert(old(out)@ + s@ + spaces((width - n) as nat) =~= old(out)@ + (s@ + spaces(
                (width - n) as nat,
            )));
        }
    }
}

/// One line of the environment report: the label padded to 20 characters,
/// the bracketed status padded to 13, then the detail.
pub open spec fn diagnostic_line_spec(item: DiagnosticItem) -> Seq<char> {
    pad_right(item.label@, 20) + " "@ + pad_right("["@ + status_tag(item.status) + "]"@, 13) + " "@
        + item.detail@
}

/// Renders one line of the environment report.
pub fn diagnostic_line(item: &DiagnosticItem) -> (s: String)
    ensures
        s@ == diagnostic_line_spec(*item),
{
    let mut s = String::new();
    push_padded(&mut s, item.label, 20);
    s.append(" ");
    let tag = concat3("[", status_label(&item.status), "]");
    push_padded(&mut s, tag.as_str(), 13);
    s.append(" ");
    s.append(item.detail.as_str());
    proof {
        reveal_strlit(" ");
        reveal_strlit("[");
        reveal_strlit("]");
        assert(s@ =~= diagnostic_line_spec(*item));
    }
    s
}

/// The rows of the environment report in the order they are printed.
pub fn doctor_rows(diagnostics: LinuxDiagnostics, output_dir: DiagnosticItem) -> (rows: Vec<DiagnosticItem>)
    ensures
        rows@ == seq![
            diagnostics.session_type,
            diagnostics.detected_backend,
            diagnostics.portal_availability,
            output_dir,
            diagnostics.clipboard_support,
            diagnostics.multi_display,
        ],
{
    let mut rows: Vec<DiagnosticItem> = Vec::new();
    rows.push(diagnostics.session_type);
    rows.push(diagnostics.detected_backend);
    rows.push(diagnostics.portal_availability);
    rows.push(output_dir);
    rows.push(diagnostics.clipboard_support);
    rows.push(diagnostics.multi_display);
    rows
}


/// Everything a capture command decides before it captures: the request,
/// what to do with the image, and where and how to save it.
#[derive(Debug, Clone)]
pub struct CapturePlan {
    /// The capture request.
    pub request: CaptureRequest,
    /// Whether to save and whether to copy.
    pub actions: CaptureActions,
    /// Where and how the PNG file is written.
    pub save_options: SaveOptions,
}

/// The area of the request the mode flags ask for, when they do not conflict.
pub open spec fn requested_area(region: Option<CaptureRegion>, select: bool) -> CaptureArea {
    match region {
        Some(reg) => CaptureArea::Region(reg),
        None => if select {
            CaptureArea::InteractiveRegion
        } else {
            CaptureArea::Fullscreen
        },
    }
}

/// Plans a capture command from its arguments: the output path defaults to
/// a timestamped PNG name in `output_dir`, and the flags must name at most
/// one capture mode.
pub fn plan_capture(
    fullscreen: bool,
    region: Option<CaptureRegion>,
    select: bool,
    output: Option<String>,
    save: bool,
    copy: bool,
    on_conflict: SaveConflictStrategy,
    output_dir: &str,
    timestamp: Option<String>,
) -> (r: CaptureResult<CapturePlan>)
    ensures
        r is Err <==> explicit_mode_count(fullscreen, region, select) > 1,
        r matches Err(e) ==> e matches CaptureError::InvalidRequest { message }
            && message@ == conflicting_modes_message(),
        r matches Ok(plan) ==> {
            &&& plan.request.area == requested_area(region, select)
            &&& plan.actions.copy == copy
            &&& plan.actions.save == (save || output is Some || !copy)
            &&& plan.save_options.format == ImageFormat::Png
            &&& plan.save_options.conflict_strategy == on_conflict
            &&& plan.save_options.output_path@ == output_path_of(
                output,
                output_dir@,
                default_filename_of(ImageFormat::Png, timestamp),
            )
        },
{
    let actions = build_actions(output.is_some(), save, copy);
    let output_path = build_output_path(output, output_dir, default_filename(ImageFormat::Png, timestamp));
    let request = match build_request(fullscreen, region, select) {
        Ok(request) => request,
        Err(e) => return Err(e),
    };
    let save_options = SaveOptions::with_conflict_strategy(ImageFormat::Png, output_path.as_str(), on_conflict);
    Ok(CapturePlan { request, actions, save_options })
}

/// The line printed after copying without saving.
pub open spec fn copied_message(backend: ClipboardBackend) -> Seq<char> {
    "copied to clipboard via "@ + clipboard_name(backend)
}

/// Returns the line printed after copying without saving.
pub fn copied_notice(backend: ClipboardBackend) -> (s: String)
    ensures
        s@ == copied_message(backend),
{
    concat2("copied to clipboard via ", backend.name())
}

} // verus!
