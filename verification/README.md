# launcher_updater

The decisions of a launcher's self-updater, verified with Verus.

- `src/` is the library. It performs no I/O: it builds requests, reads the update
  catalog, judges downloaded packages and directs an installation step by step.
  Every function states in its contract what it returns; the public `law_*` proof
  functions state what holds across functions.
- `app/` holds the Tauri commands around the library: HTTP, files, processes, and
  the JSON forms of its types.
- `tests/` runs the library on concrete values, with the real outside crates.

On Debian and its derivatives the package carries no signature. There the library
lets a downloaded package wait for its installation only where a fetched catalog
gives its exact size and SHA-256 digest (`law_stored_bytes_are_vouched_for` and
`law_waiting_bytes_are_vouched_for` in `src/enqueue.rs`).
