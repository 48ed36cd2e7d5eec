# slint_windows_mica_template

Window-frame logic for a Slint application on Windows with a borderless
window, a Mica/Acrylic backdrop and custom or native caption buttons.

The library (`src/`) is verified with Verus. It holds the decisions the
window procedures make, as plain functions with contracts:

- `geometry`: screen rectangles and the packed coordinates of mouse messages.
- `hit_test`: `WM_NCHITTEST` and `WM_NCCALCSIZE` for the custom-drawn and the
  native-caption frames.
- `controls`: titlebar button configuration and the caption-button state
  machine (hover, press, click).
- `attributes`: window attribute configurations and the style updates and
  DWM writes they turn into.
- `hook`: which created window the creation hook hands to its callback, and
  when.
- `sys_info`, `effects`, `lifecycle`: version checks, backdrop and shadow
  decisions, and what closing and reopening a secondary window does.

`app/` is the program around it: Win32 and Slint calls, window procedures
and the UI wiring. `tests/` runs the library on concrete values.
