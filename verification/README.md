# term39

A retro-styled terminal desktop with a lockscreen, dialogs and a
framebuffer text renderer. Its core is a library verified with Verus.

- `src/` — the verified library: escape-sequence handling, the lockscreen
  and PIN set-up, settings and their window, dialogs and menus, keyboard and
  mouse decoding and routing, PSF fonts, framebuffer pixels and the mouse
  cursor, sessions and command history. `src/laws.rs` and the `law_*` proof
  functions in the modules state what holds across operations.
- `tests/` — tests of the library on concrete values.
- `app/` — the program around it: terminal I/O, files, the command line and
  the main loop.
