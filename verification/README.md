# A Simple Autoclicker

A lightweight autoclicker for Linux (GTK4/libadwaita on X11) and Windows. It repeats
mouse clicks or recorded key combinations at an interval, can stop after a run duration
or an exact number of actions, can click at a fixed screen position, keeps named
presets, and is started and stopped from the window, the tray or a global F6–F12 hotkey.

## Layout

- `src/` is the library, written in Verus and verified:
  - `clicker.rs` — the click engine: settings, run flags, and the worker's state
    machine with its time and action limits, and the laws that a run obeys.
  - `hotkey.rs` — the global hotkey listener: key grabs, debouncing, and the
    rule that the repeated key never toggles.
  - `presets.rs` — the preset list: saving (replace by name, or add and sort by
    lower-case name) and deleting, each handing the updated list to a writer and
    keeping the former list when the writer fails.
  - `input.rs` — the X11 steps and Windows inputs that perform an action, and the
    answer to a batch of Windows inputs.
  - `keys.rs` — the keys the Windows window can record and their virtual-key codes.
  - `ico.rs` — the icon file of the Windows executable: bitmaps, directory and layout.
  - `windows_form.rs`, `gtk_form.rs` — the decisions of the two windows.
  - `durations.rs`, `text.rs`, `labels.rs`, `icon.rs`, `tray.rs`, `config.rs`,
    `model.rs` — units, number formatting, key labels, the Windows icon, tray
    texts, preset file locations and the shared data types.
- `tests/` exercises the library on concrete values.
- `app/` is the program around the library: the GTK and Windows windows, the tray,
  the X11 and Windows input backends, the worker and hotkey threads, and the JSON
  preset file.
