# orivo (verified core)

orivo is a terminal pomodoro timer and todo list that keeps its SQLite database in sync with a
private GitHub repository. This crate holds its logic as a Verus-verified library; `app/` is
the thin program around it (argument handling, files, `gh`/`git` processes, terminal drawing,
desktop notifications).

Layout of `src/`:

- `config/` — the config file's sections (`Config`, `TimerConfig`, `SyncConfig`): defaults,
  clamped timer durations, and the check that keeps repo and file names safe to hand to
  `gh`/`git`.
- `domains/sync.rs` — gzip/gunzip with the decompression cap, SHA-256 hashing, the sync plan
  (push, pull, nothing, or ask), and reading the answer to the conflict prompt.
- `kinds/` — pomodoro phases, colors and keys.
- `models/session.rs` — recorded sessions, their database rows and per-todo statistics.
- `utils/` — text helpers, dates and timestamps, notification text.
- `widgets/` — the state machines behind the timer and todo widgets (duration picker, search
  bar, due-date calendar) and the text they show.

Run `verus` on `src/lib.rs` to check the proofs; the tests under `tests/` run the library
against the real outside crates.
