# screen_capture

A Linux screenshot tool whose decisions are proved with Verus.

- `src/` is the verified library: the image model and cropping, PNG
  encoding and file output (conflict handling, error messages), the
  capture pipeline, X11 pixel decoding, keymap lookups, region selection and
  hotkey handling, portal URI and image handling, backend and clipboard
  selection, the `doctor` report, and the command-line decisions (capture
  modes, actions, region arguments, output paths).
- `app/` is the program around it: argument parsing, talking to the X
  server, the desktop portal and D-Bus, running clipboard tools, the file
  system, the tray icon, and the annotation editor window.
- `tests/` exercises the library on concrete inputs.

Commands: `capture` (with `--fullscreen`, `--region x,y,width,height`,
`--select`, `--output`, `--save`, `--copy`, `--on-conflict`, `--backend`,
`--delay`), `doctor`, and `tray` (with `--edit-region`, `--edit-input`).
