# gpui_term

A terminal widget for GPUI, built on `alacritty_terminal`, in two parts.

- `src/` is the verified library (Verus). It holds the logic of the widget:
  - `keys`: keystrokes to bytes (xterm, application cursor and keypad, kitty CSI u)
  - `terminal_core`: mouse reports (X10, UTF-8, SGR), the wheel, paste and focus
    reports, and the side-band state taken from the emulator's events
  - `painter`: collecting and merging background regions
  - `runs`: joining the visible cells of a line into text runs of one style
  - `pointer`: what mouse presses, releases and motion do (links, scrollbar drag,
    auto-copy, paste, forwarding to the terminal core)
  - `colors`, `highlight`, `element`, `mode`, `url`, `font`, `ssh`: colour tables,
    selection spans, cursor placement and the frame cache, mode predicates, URL checks, font defaults
    and the SSH authentication plan

  Each public function has a contract over spec functions. The `law_*` proof
  functions state properties that hold across calls.
- `app/` is plain Rust around the library: the GPUI element, the PTY and SSH
  backends, floating-point contrast and pixel geometry, and conversions between
  the emulator's types and the library's.
- `tests/` holds the tests on concrete values.
