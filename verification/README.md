# ctrl_panel

The logic of the Ghaf control panel as a verified library: the list of services and VMs
that follows the admin service's events, the steps of a system update and the update
page, the language and time zone data read from the system, the audio device list, the
bug report form, the about page, the display settings, the configuration file and the
commands sent to the admin service. Every function carries a contract, and the laws that
hold across functions are stated and proved as proof functions.

Layout:

- `src/` — the library, one module per part of the panel; `text.rs` and `path.rs` hold
  the character-level and path operations the others build on, `json.rs` reads JSON text
  through `serde_json` into the library's JSON values.
- `tests/` — tests on concrete values, one file per area.
- `app/` — a command-line driver that reads the system's files and commands, hands what
  it read to the library and prints what the panel would show.
