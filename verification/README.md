# meshh_tui

Verified core of `meshh`, the terminal client for MESHH route deliveries.

- `src/` is the library, verified with Verus: configuration precedence, credentials and
  their file layout, the device login flow, the delivery list state and its reducer, the
  live stream session, timestamp display, the text of every screen, release version
  ordering, update checks, checksum and archive checks, and the release audit.
- `app/` is the `meshh` program around it: argument parsing, HTTP, the terminal, files,
  environment variables and child processes. It performs the I/O the library asks for and
  leaves every decision to the library.
- `tests/` exercise the library on concrete values.

Outside crates are called from the library only through small trusted wrappers whose
contracts are listed in their doc comments (`src/paths.rs`, `src/release.rs`,
`src/text.rs`, `src/tui/time_display.rs`).
