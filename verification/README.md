# VibingIDE

A desktop app for running CLI coding agents side by side in PTY-backed
panels. This crate holds its logic as a library verified with Verus, and the
desktop shell around it.

Layout:

- `src/` — the verified library:
  - `app` — which bytes a key, text or paste event sends to the focused
    terminal, command-line splitting, and how a terminal line is grouped into
    styled runs;
  - `pty::ansi` — the terminal screen: a `vt100` emulator whose screen is
    copied into fixed-size styled lines, and the 256-colour palette;
  - `pty::supervisor` — launch specs (never through an implicit shell), the
    child-environment allowlist, PTY size clamping, Windows extension order;
  - `engine::panel_manager` — the panels, their process handles and focus;
  - `engine::project` — which directory entries are listed and in what order,
    `.gitignore` patterns;
  - `engine::session_manager`, `history` — session ids, history events, session
    file names, the session index, NDJSON lines;
  - `config` — configuration defaults, precedence and validation;
  - `cli`, `input`, `ui`, `path_utils`, `text` — argument parsing, key
    bindings, hit-testing and file-tree rows, path prefixes, string helpers.
- `tests/` — tests of the library.
- `app/` — the program: logging, file and PTY I/O, config and history
  (de)serialisation, and the egui interface.
