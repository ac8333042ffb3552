use screen_capture::cli::{
    build_actions, build_request, copied_notice, diagnostic_line, doctor_rows, friendly_error_message,
    output_dir_item, parse_region, plan_capture, status_label, CaptureActions, OutputDirProbe,
};
use screen_capture::diagnostics::{collect_diagnostics, DiagnosticItem, DiagnosticStatus, PortalProbe};
use screen_capture::error::CaptureError;
use screen_capture::model::{CaptureArea, CaptureRegion, ImageFormat, SaveConflictStrategy};
use screen_capture::platform::{BackendChoice, ClipboardBackend, PortalBackend};

#[test]
fn defaults_to_save_when_no_explicit_action_is_requested() {
    assert_eq!(build_actions(false, false, false), CaptureActions { save: true, copy: false });
}

#[test]
fn copy_only_disables_save_when_no_output_path_is_present() {
    assert_eq!(build_actions(false, false, true), CaptureActions { save: false, copy: true });
}

#[test]
fn output_path_implies_save_even_when_copy_is_requested() {
    assert_eq!(build_actions(true, false, true), CaptureActions { save: true, copy: true });
}

#[test]
fn every_flag_combination_does_something() {
    for has_output in [false, true] {
        for save in [false, true] {
            for copy in [false, true] {
                let actions = build_actions(has_output, save, copy);
                assert!(actions.save || actions.copy);
                assert_eq!(actions.copy, copy);
                if has_output || save {
                    assert!(actions.save);
                }
            }
        }
    }
}

#[test]
fn request_follows_the_single_mode_flag() {
    let region = CaptureRegion::new(1, 2, 3, 4).unwrap();
    assert_eq!(build_request(false, None, false).unwrap().area, CaptureArea::Fullscreen);
    assert_eq!(build_request(true, None, false).unwrap().area, CaptureArea::Fullscreen);
    assert_eq!(build_request(false, Some(region), false).unwrap().area, CaptureArea::Region(region));
    assert_eq!(build_request(false, None, true).unwrap().area, CaptureArea::InteractiveRegion);
}

#[test]
fn conflicting_modes_are_rejected() {
    let region = CaptureRegion::new(1, 2, 3, 4).unwrap();
    let error = build_request(true, Some(region), false).expect_err("two modes");
    assert_eq!(
        error.describe(),
        "invalid capture request: use only one of --fullscreen, --region, or --select"
    );
    assert!(build_request(true, None, true).is_err());
    assert!(build_request(false, Some(region), true).is_err());
}

#[test]
fn region_argument_is_read_field_by_field() {
    assert_eq!(parse_region("100,200,640,480").unwrap(), CaptureRegion::new(100, 200, 640, 480).unwrap());
    assert_eq!(parse_region(" 1 , 2,\t3 ,4 ").unwrap(), CaptureRegion::new(1, 2, 3, 4).unwrap());
    assert_eq!(parse_region("+1,2,3,4").unwrap(), CaptureRegion::new(1, 2, 3, 4).unwrap());
    assert_eq!(parse_region("0,0,4294967295,1").unwrap().width, u32::MAX);
}

#[test]
fn malformed_region_arguments_are_explained() {
    assert_eq!(parse_region("1,2,3").unwrap_err(), "expected region format x,y,width,height");
    assert_eq!(parse_region("1,2,3,4,5").unwrap_err(), "expected region format x,y,width,height");
    assert_eq!(parse_region("a,2,3,4").unwrap_err(), "invalid x value in region \"a,2,3,4\"");
    assert_eq!(parse_region("1,-2,3,4").unwrap_err(), "invalid y value in region \"1,-2,3,4\"");
    assert_eq!(parse_region("1,2,,4").unwrap_err(), "invalid width value in region \"1,2,,4\"");
    assert_eq!(
        parse_region("1,2,3,4294967296").unwrap_err(),
        "invalid height value in region \"1,2,3,4294967296\""
    );
    assert_eq!(
        parse_region("1,2,0,4").unwrap_err(),
        "invalid capture request: capture region width and height must be greater than zero"
    );
}

#[test]
fn friendly_messages_per_error_kind() {
    let text = |e: CaptureError| friendly_error_message(&e);
    assert_eq!(text(CaptureError::InvalidRequest { message: "m".into() }), "invalid capture request: m");
    assert_eq!(text(CaptureError::Cancelled { message: "m".into() }), "capture cancelled: m");
    assert_eq!(
        text(CaptureError::Unsupported { message: "m".into() }),
        "current session does not support this operation: m"
    );
    assert_eq!(
        text(CaptureError::BackendUnavailable { message: "m".into() }),
        "requested backend is unavailable: m"
    );
    assert_eq!(text(CaptureError::InvalidOutputPath { path: "/x/y.png".into() }), "invalid output path: /x/y.png");
    assert_eq!(text(CaptureError::EmptyImage), "capture backend returned empty image data");
    assert_eq!(
        text(CaptureError::InvalidImageBuffer { expected: 4, actual: 3 }),
        "capture backend returned malformed image data"
    );
    assert_eq!(text(CaptureError::Backend { message: "m".into() }), "capture backend failed: m");
    assert_eq!(text(CaptureError::Encoding { message: "m".into() }), "failed to encode PNG image: m");
    assert_eq!(text(CaptureError::Output { message: "m".into() }), "failed to save screenshot: m");
}

#[test]
fn status_labels_are_short_tags() {
    assert_eq!(status_label(&DiagnosticStatus::Pass), "ok");
    assert_eq!(status_label(&DiagnosticStatus::Warn), "warn");
    assert_eq!(status_label(&DiagnosticStatus::Error), "error");
    assert_eq!(status_label(&DiagnosticStatus::Unimplemented), "todo");
}

#[test]
fn report_lines_are_padded_columns() {
    let item = DiagnosticItem { label: "Session type", status: DiagnosticStatus::Pass, detail: "x11".to_string() };
    assert_eq!(diagnostic_line(&item), format!("{:<20} {:<13} {}", "Session type", "[ok]", "x11"));
    let long = DiagnosticItem {
        label: "A label longer than twenty",
        status: DiagnosticStatus::Unimplemented,
        detail: "d".to_string(),
    };
    assert_eq!(diagnostic_line(&long), format!("{:<20} {:<13} {}", "A label longer than twenty", "[todo]", "d"));
    assert!(diagnostic_line(&long).starts_with("A label longer than twenty [todo] "));
}

#[test]
fn output_directory_rows() {
    let ok = output_dir_item("/home/u/Pictures", OutputDirProbe::Writable);
    assert_eq!(ok.label, "Output directory");
    assert_eq!(ok.status, DiagnosticStatus::Pass);
    assert_eq!(ok.detail, "/home/u/Pictures is writable");
    let bad = output_dir_item("/ro", OutputDirProbe::CreateFailed("Read-only file system".into()));
    assert_eq!(bad.status, DiagnosticStatus::Error);
    assert_eq!(bad.detail, "/ro is not usable: Read-only file system");
    let denied = output_dir_item("/ro", OutputDirProbe::WriteFailed("Permission denied".into()));
    assert_eq!(denied.detail, "/ro is not writable: Permission denied");
}

#[test]
fn doctor_prints_rows_in_report_order() {
    let diagnostics = collect_diagnostics(
        Some("wayland".to_string()),
        Ok(BackendChoice::Portal(PortalBackend::new())),
        PortalProbe::Registered(true),
        Ok(ClipboardBackend::WlCopy),
    );
    let rows = doctor_rows(diagnostics, output_dir_item("/tmp", OutputDirProbe::Writable));
    let labels: Vec<&str> = rows.iter().map(|r| r.label).collect();
    assert_eq!(
        labels,
        vec![
            "Session type",
            "Detected backend",
            "Portal availability",
            "Output directory",
            "Clipboard support",
            "Multi-display info"
        ]
    );
}

#[test]
fn capture_plan_combines_request_actions_and_path() {
    let plan = plan_capture(
        false,
        None,
        true,
        None,
        false,
        true,
        SaveConflictStrategy::Error,
        "/home/u/Pictures",
        Some("20240102-030405".to_string()),
    )
    .expect("plan");
    assert_eq!(plan.request.area, CaptureArea::InteractiveRegion);
    assert_eq!(plan.actions, CaptureActions { save: false, copy: true });
    assert_eq!(plan.save_options.format, ImageFormat::Png);
    assert_eq!(plan.save_options.conflict_strategy, SaveConflictStrategy::Error);
    assert_eq!(plan.save_options.output_path, "/home/u/Pictures/screencap-20240102-030405.png");

    let explicit = plan_capture(true, None, false, Some("shot.png".into()), false, false, SaveConflictStrategy::Rename, "/d", None)
        .expect("plan");
    assert_eq!(explicit.save_options.output_path, "shot.png");
    assert!(plan_capture(true, None, true, None, false, false, SaveConflictStrategy::Rename, "/d", None).is_err());
}

#[test]
fn copy_notice_names_the_tool() {
    assert_eq!(copied_notice(ClipboardBackend::Xclip), "copied to clipboard via xclip");
}
