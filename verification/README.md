# t2screenshot

The verified core of a desktop screenshot tool (a tray app with a global
shortcut, a full-screen selection overlay, save and copy).

- `src/` is the library, verified with Verus:
  - `text`: characters of a string, prefix and substring tests, decimal rendering.
  - `overlay`: overlay window labels, picking overlays out of a window list, the step after a capture.
  - `pending`: the slot holding the last capture until the overlay collects it.
  - `windows`: which windows are offered as snap targets and their order (stable, by area).
  - `base64_text`: padded standard Base64 as a specification, with decoding proved to invert encoding.
  - `raster`: rectangles of images held as samples row by row, and how cut-outs compose.
  - `codec`: trusted wrappers over the `base64` and `image` crates, with a plain model of decoded images.
  - `capture`: a captured RGBA screen as Base64 PNG text.
  - `save`: cropping, decoding for saving and for the clipboard, file names, the save dialog's answer.
  - `tray`: tray menu entries, their dispatch, the global shortcut.
- `app/` is the Tauri shell around it: commands, windows, screen capture
  (`xcap`), file system, clipboard, dialogs, and the floating-point
  conversions between physical and logical pixels.
- `tests/` exercise the library on concrete values.
