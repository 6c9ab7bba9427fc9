# miserarenaiyo

A tray application that shows a small always-on-top overlay near the cursor,
in one of two sizes, toggled from the tray menu or with Cmd+B on macOS.

- `src/` is the verified library: item types and sizes (`overlay`), the plan
  of window and tray actions of each command (`controller`), the meaning of
  those actions on the overlay window and the properties of the commands
  (`window_model`), the tray menu and its dispatch (`tray`), and the hotkey
  recognition and registration steps (`shortcut`).
- `app/` is the Tauri application: it observes the windows, asks the library
  for a plan, and performs it; it also holds the Carbon calls of the hotkey
  and the floating-point placement of the overlay under the cursor.
- `tests/` runs the library on concrete values.
