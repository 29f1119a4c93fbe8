# blackbird

The logic of a terminal music client for Subsonic-compatible servers,
written in Verus: every function in `src/` carries a contract that Verus
proves.

- `src/` — the verified library: screen layout and hit-testing, key and
  mouse routing, the panel state machines (settings, search, queue, lyrics,
  similar songs, logs), lyric wrapping, help bar layout, library row counts
  and listing order, cover-art colour grids and terminal image ids.
  Calls into `ratatui`, `crossterm`, `unicode-width` and `image` stand
  behind small trusted wrappers whose contracts say what those crates'
  sources show.
- `tests/` — tests of the library on concrete values.
- `app/` — the terminal program around it: the event loop, drawing with
  ratatui, the configuration file and logging.
