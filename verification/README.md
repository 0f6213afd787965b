# Ghosted

Ghosted is a job application tracker for the terminal. This crate holds it
as a library verified with Verus, and a thin terminal front end.

## Layout

- `src/calendar.rs`: calendar dates and times of day as plain values, valid
  by their type invariants, day numbers and second counts that state how
  they move, and the calls into `chrono` that move them and read the clock.
- `src/models.rs`: applications, their statuses and the create/edit form,
  with their mathematical views.
- `src/state.rs`: the tracker's state as a mathematical value and what each
  action and each key press does to it.
- `src/app.rs`: the tracker itself; every method is proved to act as
  `state.rs` says and to keep the state well formed.
- `src/laws.rs`: properties that span several actions (moving the selection
  there and back, typing then deleting, editing without changes, only `Q`
  quits, every change of the applications asks for a save, ...).
- `src/presentation.rs`: what the screen shows, as plain values: table and
  detail texts, the month grid of the date picker, popup areas and halves.
- `src/cli.rs`: the command line and the messages for its refusals.
- `app/`: the program: terminal setup, key reading, drawing with `ratatui`,
  and the JSON file of applications.

## Running

```bash
cargo run                       # applications.json in the configuration directory
cargo run -- --file jobs.json   # or a file of your choice
```
