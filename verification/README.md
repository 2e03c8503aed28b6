# cap_cli

The decision logic of `cap`, a command-line client for screen recording,
verified with Verus.

- `src/` is the verified library:
  - `output.rs`: the output format chosen by `--json`, and how results and
    errors are reported in it (text for people, or JSON with a `status`).
  - `resolution.rs`: reading a `WIDTHxHEIGHT` argument exactly as `str::split`
    and `str::parse::<u32>` would, writing numbers in decimal, and the proof
    that a written resolution reads back as itself.
  - `target.rs`: choosing the screen or window to capture by its id.
  - `capture.rs`: recording modes and recorder settings, stop reasons, the
    names of new recordings and screenshots (with the current time from
    `chrono` and a random id from `uuid`), and the messages shown meanwhile.
  - `export.rs`: the export settings, where an exported video ends up, and the
    export messages.
  - `listing.rs`: the lines of the camera and microphone listings.
- `app/` is the program: argument parsing with `clap`, logging, the recorder,
  exporter and screenshot calls of Cap's own crates, `tokio` for waiting, and
  printing (JSON through `serde_json`).
- `tests/` runs the library on concrete inputs, and compares the resolution
  reader with `str::split` and `str::parse`.
