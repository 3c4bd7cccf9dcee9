# vdesk

Decision logic of a Windows tray program that switches virtual desktops with
Win+1..9 and moves the focused window along with Win+Shift+1..9, verified with
Verus.

- `src/hotkeys.rs`: the low-level keyboard hook's state machine (which key
  events are swallowed, which hotkeys are reported).
- `src/desktop.rs`: a desktop action as a state machine that asks for outside
  work (desktop count, switch, window moves, refocusing) and keeps the
  per-desktop focus memory.
- `src/app.rs`: the application's event loop as a state machine over the
  settings, with the actions each event calls for.
- `src/config.rs`, `src/events.rs`: settings and events.
- `src/icon.rs`: tray icon decoding and RGBA to BGRA conversion.
- `app/`: the Windows program around the library: hook thread, tray, registry,
  settings file, and the Win32 and virtual-desktop calls.
