# mimi-ime

A Vietnamese input method for Wayland compositors that implement
`zwp_input_method_v2`, typing in VNI or Telex (through the `vi` crate) or
passing keys through in English mode.

- `src/` is the verified library (Verus):
  - `config/`: input modes and their transformers, the application state and
    the mode toggle, the settings document and the text written for it, the
    XDG paths, and which old log files are removed;
  - `input_method/`: the engine that turns key and input-method events into
    pre-edit, commit and forward actions, with its laws in `laws.rs`;
  - `systray/`: the tray menu model;
  - `text.rs`: string helpers.
- `app/` is the program around it: the Wayland connection and event loop,
  xkbcommon, the tray (ksni), the settings window (eframe), file I/O and
  logging.
- `tests/` runs the library on concrete inputs.
