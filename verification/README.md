# horae

A study planner. This crate is the planner's logic, verified with Verus:

- `src/domain`: subjects, topics, planned sessions, study blocks, tasks.
- `src/application`: the use cases (create, assign, start, complete, list),
  the repository ports they use, and the container that wires them.
- `src/persistence`: in-memory repositories over a keyed store; saving a
  record with a known id replaces it in place, a new id is appended.
- `src/tui`: the terminal front end's records, the computing part of its
  database layer, text formatting, and the key handling of its screens
  (timer, tasks, subjects, end-of-block questions, analytics).
- `src/text.rs`: trimming, end-of-string editing and decimal formatting.

`app/` holds the unverified plumbing: the SQLite queries, drawing the
screens with ratatui, reading keys from crossterm, and the desktop commands.
