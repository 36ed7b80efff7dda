# coomer

A full-screen zoom overlay for macOS screen shares: it freezes the display
under the pointer and lets you zoom, pan and spotlight it with a flashlight.

- `src/` is the verified library: how key codes and window-server events
  become overlay intents and where each event goes (`input`), what each
  intent does to the discrete overlay state and asks of the application
  (`overlay`), when the HUD pill hides and settles (`hud`), which display is
  captured (`capture`), and the pidfile through which a new launch replaces
  the running session (`instance`).
- `app/` is the macOS application around it: AppKit windows and views, Core
  Graphics capture and drawing, and all floating-point geometry and
  animation.
