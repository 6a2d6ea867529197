# qsonaut_gui

The operating logic of a ham-radio station desk, verified with Verus.

- `src/` — the library. `text` models strings as sequences of characters;
  `modes` holds the WSJT message parser and QSO exchange, the FT8 and
  native-mode sequencers and transmit pipelines, JS8 messages, band plans
  and mode labels; `panels` the log-severity, automation and radio-device
  logic; `profile` and `profile_manager` operator-profile names, listings and
  the plans of the profile tabs. Files ending in `_laws` state and prove
  properties that span several functions.
- `tests/` — tests of the library on concrete values.
- `app/` — what stays outside the library: wall-clock slot timing,
  floating-point formatting, and reading and writing the profile files.
