# grabit (verified core)

The library behind the `grabit` hand manager, written in Verus.

- `src/paths.rs` — joining a component onto a path, and a path's file name,
  stem and extension, with the rules of Rust's `Path` for `/`-separated
  (Unix) paths, used on every platform.
- `src/env.rs` — which application root applies (`GRABIT_HOME` or the
  platform data directory), the hands directory, the ledger, and
  the layout of one hand (root, pocket, configuration, index database).
- `src/output.rs` — message kinds, how a message is rendered (prefix, colour,
  stream), and buffers of outputs.
- `src/logs.rs`, `src/reference.rs` — log entries, references, and their
  stored texts.
- `src/error.rs` — the error types, their messages, and how a failed file
  operation becomes an error that names its path.
- `src/db.rs` — migrations to apply, the query plans behind listing
  references and logs, the texts logged for references, and the database
  summary.
- `src/text.rs` — decimal rendering and string helpers.

`app/` holds the runtime: environment variables and the platform data
directory lookup, file system, terminal
output and the SQLite database (through `sqlx`), driven by the library.
