# att_runtime

The runtime of a game translation tool: the project log, SQLite storage, file system
capabilities, and the boundary to Windows. Its logic is a library of executable Rust whose
behaviour is stated in contracts and proved by Verus.

## Layout

- `src/` is the verified library.
  - `log_*` is the project log: events and their codes (`log_event`), the rules that
    producers must keep (`log_producer`), numbering and queueing (`log_runtime`), opening and
    closing a run (`log_session`, `log_terminal`), the writer and its loop (`log_writer`,
    `log_loop`), failure counts (`log_health`) and what a line holds (`log_payload`).
    `log_laws` states what holds across all of them.
  - `sqlite_*` is the storage: plans and their checks (`sqlite_plan`, `sqlite_bulk`), running
    them (`sqlite_transaction`, with its laws in `sqlite_laws`), queries (`sqlite_query`,
    `sqlite_row`), new databases (`sqlite_database`, `sqlite_target`, `sqlite_creation`,
    `sqlite_copy`), connections (`sqlite_open`, `sqlite_wait`), the interactive session
    (`sqlite_session`), the storage's life (`sqlite_storage`) and errors (`sqlite_error`).
  - `candidate`, `fingerprint`, `lease`, `path_index`, `publication`, `scoped`, `file_system`
    and `cpu` are the capabilities that the rest of the program builds on.
  - `windows`, `windows_path` and `windows_walk` hold the rules for paths, identities, locks
    and volumes; `run_id` numbers runs.
- `tests/` runs the library, also against a real SQLite.
- `app/` is the ordinary Rust around it: threads, channels, files, connections and Win32.

## How work with the outside is written

What alternates decisions and outside work is a value in `src/` with `request` and
`advance`: `request` says what to do now, and `advance` takes what came of it. The contracts
say which state follows, so properties of whole runs are proved without a connection or a
file. `app/` only carries out the requests.
