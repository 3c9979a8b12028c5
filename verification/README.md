# Khazad-Doom state and workflow

Khazad-Doom runs coding agents on the slices of a plan. This crate holds its durable workflow state
and the decisions around it, verified with Verus: which run may work on a repository, how a run is
launched, resumed and ended, what its workers do and ask, how their work is merged, how a plan is
revised, how the operator is called, and how the panes of the cockpit are laid out.

## Layout

- `src/` is the verified library.
  - `store/` holds the tables of the state and every operation on them. An operation is stated as a
    function from tables to tables; a refused operation leaves the tables as they were.
    `store/laws.rs` states what holds of the operations together, and `store/listings.rs` what holds
    of the listings.
  - `encode.rs` writes the rows of the tables into columns, and `decode.rs` reads them back.
  - `attention/` decides, step by step, how the operator is called and told of the end of a run.
  - `cockpit/` plans the layout of the panes, composes the commands that are typed into them, and
    decides which command comes next from what the earlier ones replied.
  - `economics.rs` keeps the telemetry of a run.
  - `events.rs`, `event_kind.rs`, `payloads.rs`, `typed.rs` and `incidents.rs` hold the events and
    their payloads.
  - `table.rs`, `text.rs`, `time.rs`, `json.rs`, `digest.rs` and `shell.rs` hold what the rest is
    built on. The calls into outside crates stand in `digest.rs`, `json.rs` and `time.rs`.
- `tests/` runs the library.
- `app/` is ordinary Rust around the library: the SQLite database, the herdr processes, the
  notification files and the telemetry snapshots. Each database transaction loads the rows that a
  step looks at, makes one verified step and writes what changed.

Time is handed in as an argument, so that every decision is a function of what it is given.
