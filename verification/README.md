# todor

A terminal planner with two lists: dailies (habits checked off per day) and
todos pinned to a day. The planner's logic is a verified library:

- `src/date.rs` — days as chrono numbers them; next/previous day and weekday
  through chrono.
- `src/text.rs` — trimming the typed text.
- `src/items.rs` — todos, dailies, the saved snapshot; toggling a daily's days.
- `src/selection.rs` — the highlighted row of a list.
- `src/app.rs` — the planner state, its mathematical model, and every key's
  effect on it.
- `src/laws.rs` — properties that span operations.

`app/` is the terminal front end (crossterm, ratatui) and the JSON file
(serde, serde_json); it reads keys, asks the library what to do, saves and draws.
