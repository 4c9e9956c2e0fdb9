# fypm task commands

The task subcommands of fypm, a helper around taskwarrior: starting, stopping
and completing tasks, creating tasks, subtasks, sequences, birthdays and
playlists, scheduling and giving up on tasks, and listing tasks by day or by
mother task.

## Layout

- `src/` is the verified library (Verus).
  - `flows/` holds one state machine per command. Each `step` takes the
    event the runner reports and returns the next effect (a `task` call, a
    query, a prompt, a line to print, a nested command, or the result), with a
    contract that states the effect and the next state for every event.
  - `command.rs`, `args.rs`: the `task` calls and their argument lists.
  - `uuid.rs`: finding the identifier of a created task in taskwarrior's
    output (through the `regex` crate).
  - `calendar.rs`: the dates the commands compute with (through `chrono`).
  - `text.rs`: decimal rendering, joining and repeating of strings.
  - `model.rs`, `flow.rs`: errors, options, tasks, effects and events.
- `app/` runs the flows: processes, terminal, prompts, files, and the clock.
  It also stands in, with direct `task` calls, for the project's helper
  modules that are not part of this crate: task lookups and counts, report
  filters, confirmation, annotation, date ranges, alias expansion, the checks
  before a start and the search for the task to start.
- `tests/` exercises the library on concrete values.
