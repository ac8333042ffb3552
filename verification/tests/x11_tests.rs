use screen_capture::error::CaptureError;
use screen_capture::hotkey::{hotkey_step, hotkey_trigger_keycode, HotkeyAction, HotkeyEvent};
use screen_capture::model::{CaptureArea, CaptureRegion, CapturedImage, PixelFormat, Resolution};
use screen_capture::x11::{
    can_decode, decode_x11_image, decode_x11_pixels, find_keycode_for_keysym, find_root_visual,
    finish_x11_capture, has_trigger_modifiers, hotkey_modifier_variants, keycode_keysyms, lookup_keysym,
    numlock_mask_from_mapping, scale_channel, selection_step, visible_window_region, ChannelMasks, Keymap,
    PixmapFormat, SelectionEvent, SelectionRectangle, SelectionState, SelectionStep, VisualMasks, XK_ESCAPE,
    XK_RETURN,
};

const RGB888: ChannelMasks = ChannelMasks { red: 0x00ff_0000, green: 0x0000_ff00, blue: 0x0000_00ff };

#[test]
fn scale_channel_expands_to_8bit() {
    let pixel = 0b10101u32 << 11;
    let mask = 0b11111u32 << 11;

    assert_eq!(scale_channel(pixel, mask), 172);
}

#[test]
fn scale_channel_extremes() {
    assert_eq!(scale_channel(0xffff_ffff, 0x0000_f800), 255);
    assert_eq!(scale_channel(0, 0x0000_f800), 0);
    assert_eq!(scale_channel(0x1234, 0), 0);
}

#[test]
fn decodes_little_and_big_endian_pixels() {
    let data = [0x30u8, 0x20, 0x10, 0x00];
    let rgba = decode_x11_pixels(&data, 32, true, RGB888).unwrap();
    assert_eq!(rgba, vec![0x10, 0x20, 0x30, 255]);
    let rgba = decode_x11_pixels(&data, 32, false, RGB888).unwrap();
    assert_eq!(rgba, vec![0x20, 0x10, 0x00, 255]);
    let rgba = decode_x11_pixels(&[0x56, 0x34, 0x12], 24, true, RGB888).unwrap();
    assert_eq!(rgba, vec![0x12, 0x34, 0x56, 255]);
}

#[test]
fn decoder_rejects_unusual_pixel_widths() {
    let error = decode_x11_pixels(&[0u8; 8], 64, true, RGB888).unwrap_err();
    assert_eq!(error.describe(), "unsupported operation: unsupported X11 pixel width: 8 bytes");
    assert_eq!(decode_x11_pixels(&[0u8; 4], 64, true, RGB888).unwrap(), Vec::<u8>::new());
    let error = decode_x11_pixels(&[0u8; 4], 0, true, RGB888).unwrap_err();
    assert_eq!(error.describe(), "backend error: invalid X11 bytes_per_pixel value");
}

#[test]
fn image_decoding_uses_the_format_of_the_depth() {
    let formats = vec![PixmapFormat { depth: 1, bits_per_pixel: 1 }, PixmapFormat { depth: 24, bits_per_pixel: 32 }];
    let rgba = decode_x11_image(&formats, 24, RGB888, &[1, 2, 3, 0, 4, 5, 6, 0], true).unwrap();
    assert_eq!(rgba, vec![3, 2, 1, 255, 6, 5, 4, 255]);
    let error = decode_x11_image(&formats, 16, RGB888, &[], true).unwrap_err();
    assert_eq!(error.describe(), "backend error: missing pixmap format for X11 depth 16");
    assert!(can_decode(&[1, 2, 3, 0], 32, true, RGB888));
    assert!(!can_decode(&[0xff, 0xff, 0xff, 0xff], 32, true, ChannelMasks { red: u32::MAX, green: 0, blue: 0 }));
}

#[test]
fn root_visual_is_found_by_id() {
    let visuals = vec![
        VisualMasks { visual_id: 7, masks: ChannelMasks { red: 1, green: 2, blue: 4 } },
        VisualMasks { visual_id: 33, masks: RGB888 },
        VisualMasks { visual_id: 33, masks: ChannelMasks { red: 8, green: 8, blue: 8 } },
    ];
    assert_eq!(find_root_visual(&visuals, 33), Some(RGB888));
    assert_eq!(find_root_visual(&visuals, 99), None);
}

fn sample_keymap() -> Keymap {
    // keycodes 8..=11, two keysyms each
    Keymap { min_keycode: 8, keysyms_per_keycode: 2, keysyms: vec![0, 0xff1b, 0x61, 0x41, 0, 0, 0xff7f, 0] }
}

#[test]
fn keymap_lookups() {
    let keymap = sample_keymap();
    assert_eq!(lookup_keysym(&keymap, 8), Some(XK_ESCAPE));
    assert_eq!(lookup_keysym(&keymap, 9), Some(0x61));
    assert_eq!(lookup_keysym(&keymap, 10), None);
    assert_eq!(lookup_keysym(&keymap, 7), None);
    assert_eq!(lookup_keysym(&keymap, 12), None);
    assert_eq!(find_keycode_for_keysym(&keymap, 0x41), Some(9));
    assert_eq!(find_keycode_for_keysym(&keymap, 0x42), None);
    assert_eq!(keycode_keysyms(&keymap, 11), &[0xff7f, 0]);
    assert_eq!(keycode_keysyms(&keymap, 3), &[] as &[u32]);
    assert_eq!(hotkey_trigger_keycode(&keymap).unwrap(), 9);
    let empty = Keymap { min_keycode: 8, keysyms_per_keycode: 1, keysyms: vec![0xff0d] };
    assert_eq!(
        hotkey_trigger_keycode(&empty).unwrap_err().describe(),
        "unsupported operation: failed to resolve X11 keycode for shortcut key A"
    );
}

#[test]
fn numlock_modifier_is_found_in_the_mapping() {
    let keymap = sample_keymap();
    // eight modifiers, one keycode each; Num Lock (keycode 11) bound to Mod2 (index 4)
    let mapping = [0u8, 0, 0, 0, 11, 0, 0, 0];
    assert_eq!(numlock_mask_from_mapping(&keymap, &mapping, 1), 16);
    let bound_to_mod4 = [0u8, 0, 0, 0, 0, 0, 11, 0];
    assert_eq!(numlock_mask_from_mapping(&keymap, &bound_to_mod4, 1), 64);
    assert_eq!(numlock_mask_from_mapping(&keymap, &[0u8; 8], 1), 16);
}

#[test]
fn trigger_modifiers_ignore_locks() {
    for state in hotkey_modifier_variants(16) {
        assert!(has_trigger_modifiers(state, 16));
    }
    assert_eq!(hotkey_modifier_variants(16), [12, 14, 28, 30]);
    assert!(has_trigger_modifiers(12 | 0x100, 16));
    assert!(!has_trigger_modifiers(4, 16));
    assert!(!has_trigger_modifiers(12 | 1, 16));
}

#[test]
fn holding_the_hotkey_captures_once() {
    let press = HotkeyEvent::KeyPress { keycode: 38, state: 12 };
    let (held, action) = hotkey_step(false, press, 38, 16);
    assert!(held);
    assert_eq!(action, HotkeyAction::CaptureWindowUnderPointer);
    let (held, action) = hotkey_step(held, press, 38, 16);
    assert!(held);
    assert_eq!(action, HotkeyAction::Nothing);
    let (held, action) = hotkey_step(held, HotkeyEvent::KeyRelease { keycode: 38 }, 38, 16);
    assert!(!held);
    assert_eq!(action, HotkeyAction::Nothing);
    let (_, action) = hotkey_step(held, press, 38, 16);
    assert_eq!(action, HotkeyAction::CaptureWindowUnderPointer);
    assert_eq!(
        hotkey_step(false, HotkeyEvent::KeyPress { keycode: 38, state: 4 }, 38, 16),
        (false, HotkeyAction::Nothing)
    );
    assert_eq!(hotkey_step(true, HotkeyEvent::KeyRelease { keycode: 39 }, 38, 16), (true, HotkeyAction::Nothing));
    assert_eq!(hotkey_step(true, HotkeyEvent::Other, 38, 16), (true, HotkeyAction::Nothing));
}

#[test]
fn drag_selects_a_region_in_either_direction() {
    let mut state = SelectionState::default();
    selection_step(&mut state, SelectionEvent::ButtonPress { button: 1, x: 50, y: 40 });
    let step = selection_step(&mut state, SelectionEvent::Motion { x: 20, y: 10 });
    match step {
        SelectionStep::Continue { erase, draw } => {
            assert_eq!(erase, Some(SelectionRectangle { x: 50, y: 40, width: 0, height: 0 }));
            assert_eq!(draw, Some(SelectionRectangle { x: 20, y: 10, width: 29, height: 29 }));
        }
        SelectionStep::Finish { .. } => panic!("motion does not finish"),
    }
    selection_step(&mut state, SelectionEvent::ButtonRelease { button: 1, x: 10, y: 30 });
    assert_eq!(state.final_region, Some(CaptureRegion::new(10, 30, 40, 10).unwrap()));
    assert!(!state.is_dragging);
    match selection_step(&mut state, SelectionEvent::KeyPress { keysym: Some(XK_RETURN) }) {
        SelectionStep::Finish { erase, outcome } => {
            assert_eq!(erase, Some(SelectionRectangle { x: 10, y: 30, width: 39, height: 9 }));
            assert_eq!(outcome.unwrap(), CaptureRegion::new(10, 30, 40, 10).unwrap());
        }
        SelectionStep::Continue { .. } => panic!("enter finishes"),
    }
}

#[test]
fn escape_and_early_enter_end_the_selection_with_errors() {
    let mut state = SelectionState::default();
    match selection_step(&mut state, SelectionEvent::KeyPress { keysym: Some(XK_RETURN) }) {
        SelectionStep::Finish { erase, outcome } => {
            assert_eq!(erase, None);
            assert_eq!(
                outcome.unwrap_err().describe(),
                "invalid capture request: drag to create a region before pressing Enter"
            );
        }
        SelectionStep::Continue { .. } => panic!("enter finishes"),
    }
    match selection_step(&mut state, SelectionEvent::KeyPress { keysym: Some(XK_ESCAPE) }) {
        SelectionStep::Finish { outcome, .. } => {
            assert!(matches!(outcome, Err(CaptureError::Cancelled { .. })));
        }
        SelectionStep::Continue { .. } => panic!("escape finishes"),
    }
    assert!(matches!(
        selection_step(&mut state, SelectionEvent::ButtonPress { button: 3, x: 1, y: 1 }),
        SelectionStep::Continue { erase: None, draw: None }
    ));
    assert!(state.start.is_none());
}

#[test]
fn click_without_drag_selects_one_pixel() {
    let mut state = SelectionState::default();
    state.begin(5, 6);
    state.finish(5, 6);
    assert_eq!(state.final_region, Some(CaptureRegion::new(5, 6, 1, 1).unwrap()));
}

#[test]
fn window_region_is_clipped_to_the_screen() {
    assert_eq!(visible_window_region(-10, 5, 100, 50, 1920, 1080).unwrap(), CaptureRegion::new(0, 5, 90, 50).unwrap());
    assert_eq!(
        visible_window_region(1900, 1000, 100, 200, 1920, 1080).unwrap(),
        CaptureRegion::new(1900, 1000, 20, 80).unwrap()
    );
    let error = visible_window_region(-200, 0, 100, 50, 1920, 1080).unwrap_err();
    assert_eq!(
        error.describe(),
        "invalid capture request: window under pointer does not have a visible on-screen area"
    );
}

#[test]
fn x11_frame_is_shaped_to_the_request() {
    let image = CapturedImage::new(Resolution { width: 2, height: 1 }, PixelFormat::Rgba8, vec![1, 1, 1, 1, 2, 2, 2, 2])
        .unwrap();
    assert_eq!(finish_x11_capture(image.clone(), CaptureArea::Fullscreen, None).unwrap(), image);
    let region = CaptureRegion::new(0, 0, 1, 1).unwrap();
    assert_eq!(finish_x11_capture(image.clone(), CaptureArea::Region(region), None).unwrap().pixels, vec![1, 1, 1, 1]);
    let selected = CaptureRegion::new(1, 0, 1, 1).unwrap();
    assert_eq!(
        finish_x11_capture(image.clone(), CaptureArea::InteractiveRegion, Some(Ok(selected))).unwrap().pixels,
        vec![2, 2, 2, 2]
    );
    let cancelled = CaptureError::Cancelled { message: "user pressed Escape while selecting a region".into() };
    assert!(matches!(
        finish_x11_capture(image, CaptureArea::InteractiveRegion, Some(Err(cancelled))),
        Err(CaptureError::Cancelled { .. })
    ));
}
