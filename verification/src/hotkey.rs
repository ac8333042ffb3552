//! Decisions of the global Ctrl+Alt+A hotkey listener.

use vstd::prelude::*;

use crate::backend::{ImageEncoder, OutputTarget, ScreenCaptureBackend};
use crate::error::{CaptureError, CaptureResult};
use crate::model::{CaptureArea, CaptureRegion, CaptureRequest, ImageFormat, SaveConflictStrategy, SaveOptions};
use crate::output::{capture_and_save, saved_capture, OutputArtifact};
use crate::paths::path_join_of;
use crate::utils::{default_filename_of, default_output_path};
use crate::x11::{
    find_keycode_for_keysym, find_keycode_spec, first_group_with, trigger_modifiers_spec,
    has_trigger_modifiers, Keymap,
};

verus! {

/// The keysym of the `a` key.
pub const XK_A: u32 = 0x0061;

/// The message when no keycode produces the shortcut key.
pub open spec fn missing_trigger_message() -> Seq<char> {
    "failed to resolve X11 keycode for shortcut key A"@
}

/// Resolves the keycode of the shortcut key `A`.
pub fn hotkey_trigger_keycode(keymap: &Keymap) -> (r: CaptureResult<u8>)
    requires
        first_group_with(keymap.keysyms@, keymap.keysyms_per_keycode as nat, XK_A) matches Some(g)
            ==> (g <= 255 ==> keymap.min_keycode + g <= 255),
    ensures
        match find_keycode_spec(*keymap, XK_A) {
            Some(code) => r == Ok::<u8, CaptureError>(code),
            None => r matches Err(CaptureError::Unsupported { message }) && message@
                == missing_trigger_message(),
        },
{
    match find_keycode_for_keysym(keymap, XK_A) {
        Some(code) => Ok(code),
        None => Err(CaptureError::Unsupported {
            message: String::from_str("failed to resolve X11 keycode for shortcut key A"),
        }),
    }
}

/// A key event seen by the listener.
#[derive(Debug, Clone, Copy, PartialEq, Eq, Structural)]
pub enum HotkeyEvent {
    /// A key went down with the given modifier state.
    KeyPress { keycode: u8, state: u16 },
    /// A key went up.
    KeyRelease { keycode: u8 },
    /// Any other event.
    Other,
}

/// The event is the shortcut being pressed.
pub open spec fn is_trigger_press(event: HotkeyEvent, trigger: u8, numlock_mask: u16) -> bool {
    event matches HotkeyEvent::KeyPress { keycode, state } && keycode == trigger
        && trigger_modifiers_spec(state, numlock_mask)
}

/// The event is the shortcut key being released.
pub open spec fn is_trigger_release(event: HotkeyEvent, trigger: u8) -> bool {
    event matches HotkeyEvent::KeyRelease { keycode } && keycode == trigger
}

/// What the listener does after an event.
#[derive(Debug, Clone, Copy, PartialEq, Eq, Structural)]
pub enum HotkeyAction {
    /// Nothing.
    Nothing,
    /// Capture the top-level window under the pointer and save it in the
    /// default output directory.
    CaptureWindowUnderPointer,
}

/// Advances the listener by one event. Returns whether the shortcut is now
/// held and what to do: a press captures the window under the pointer only
/// when the shortcut was not already held, so holding the keys
/// (auto-repeat) captures once; releasing the key re-arms it.
pub fn hotkey_step(pressed: bool, event: HotkeyEvent, trigger: u8, numlock_mask: u16) -> (r: (
    bool,
    HotkeyAction,
))
    ensures
        r.1 == (if !pressed && is_trigger_press(event, trigger, numlock_mask) {
            HotkeyAction::CaptureWindowUnderPointer
        } else {
            HotkeyAction::Nothing
        }),
        r.0 == if is_trigger_press(event, trigger, numlock_mask) {
            true
        } else if is_trigger_release(event, trigger) {
            false
        } else {
            pressed
        },
        r.1 is CaptureWindowUnderPointer ==> r.0,
        pressed ==> r.1 is Nothing,
{
    match event {
        HotkeyEvent::KeyPress { keycode, state } => {
            if keycode == trigger && has_trigger_modifiers(state, numlock_mask) {
                if !pressed {
                    return (true, HotkeyAction::CaptureWindowUnderPointer);
                }
                return (true, HotkeyAction::Nothing);
            }
            (pressed, HotkeyAction::Nothing)
        },
        HotkeyEvent::KeyRelease { keycode } => {
            if keycode == trigger {
                return (false, HotkeyAction::Nothing);
            }
            (pressed, HotkeyAction::Nothing)
        },
        HotkeyEvent::Other => (pressed, HotkeyAction::Nothing),
    }
}

/// Carries out the hotkey's action: given the region of the window under
/// the pointer (or the error finding it), captures that region with
/// `backend`, encodes it with `encoder` and has `target` save it as a PNG
/// under a timestamped name in `output_dir`, renaming on conflict.
pub fn capture_window<B: ScreenCaptureBackend, E: ImageEncoder, T: OutputTarget>(
    window: CaptureResult<CaptureRegion>,
    backend: &B,
    encoder: &E,
    target: &T,
    output_dir: &str,
    timestamp: Option<String>,
) -> (r: CaptureResult<OutputArtifact>)
    ensures
        match window {
            Err(e) => r == Err::<OutputArtifact, CaptureError>(e),
            Ok(region) => exists|options: SaveOptions|
                #[trigger] saved_capture(
                    *backend,
                    CaptureRequest { area: CaptureArea::Region(region) },
                    *encoder,
                    *target,
                    options,
                    r,
                ) && options.format == ImageFormat::Png && options.conflict_strategy
                    == SaveConflictStrategy::Rename && options.output_path@ == path_join_of(
                    output_dir@,
                    default_filename_of(ImageFormat::Png, timestamp),
                ),
        },
{
    let region = match window {
        Ok(region) => region,
        Err(e) => return Err(e),
    };
    let path = default_output_path(output_dir, timestamp);
    let options = SaveOptions::new(ImageFormat::Png, path.as_str());
    let request = CaptureRequest::region(region);
    let saved = capture_and_save(backend, &request, encoder, target, &options);
    proof {
        assert(saved_capture(*backend, request, *encoder, *target, options, saved));
    }
    saved
}

} // verus!
