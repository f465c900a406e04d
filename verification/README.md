# cosmolith (verified core)

cosmolith bridges COSMIC's configuration store to the running Wayland
compositor. This crate holds the parts of it that decide things, each with a
proved contract:

- `src/identifier.rs`: which desktop session is running, from the values of
  the session's environment variables (blank values count as unset; a
  `cosmic`+`sway` desktop list means Sway).
- `src/error.rs`: the daemon's error values, their one-line descriptions and
  their sources.
- `src/watcher/input.rs`: which configuration keys the input watcher follows,
  and the last value seen of each input setting, against which the next
  change is compared.
- `src/text.rs`: whitespace, ASCII case-insensitive comparison and
  `:`-separated lists, on Unicode text.

`app/` reads the process environment, prints the session it identifies, and
supplies the `Display` / `std::error::Error` side of the error type (its
descriptions come from the library); `tests/` exercises the library.

Not here: the configuration watchers (input and shortcuts), the initial
keyboard events, the event loop and the compositor backends. They need the
`cosmic-config` and `cosmic-comp-config` crates, which are distributed from
the COSMIC git repositories rather than the crates.io registry (a dependency
on them by version finds no package), and the daemon's event, compositor and
persistence modules. The per-key decision of the input watcher is in the
library (`InputState::on_key_changed`), ready for a caller that reads the
store.
