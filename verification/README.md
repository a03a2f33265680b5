# multitoon

A keyboard multicontroller for running several game clients at once: keystrokes
pressed in the controller window are routed to several game windows, either fanned
out through a binding table (multi-toon mode) or forwarded to one chosen window
(individual mode).

- `src/` is the library, verified with Verus: the key model and its per-platform
  codes (`key`), the configuration model (`config`), keystroke routing (`router`),
  the controller state that the user interface drives (`ui`), the pure parts of the
  three OS backends (`platform`), and decimal rendering for messages (`text`).
- `app/` is the program around it: the egui/eframe window, reading and writing the
  JSON config file, and the X11, macOS and Windows backends that enumerate windows
  and inject keys.
- `tests/` exercises the library on concrete values.
