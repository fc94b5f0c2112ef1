# GitUp

An interactive helper for everyday Git work: a settings file beside the
program, and a menu to commit and push, switch branches, clone, merge commits
from another repository, update from the remote, revert, reset, browse the
log and upload local commits.

## Layout

- `src/` is the verified library. Every dialogue of the tool is a state
  machine: a step function takes the event that the last action produced and
  returns the next action (print, ask, run `git`, touch the file system,
  save the settings, or finish). Each step is specified exactly by a spec
  function over the dialogue's model.
  - `config.rs`: the settings, how they are read from and written to the
    settings file; saving and reading back gives the same settings.
  - `text.rs`: trimming, number parsing and printing, yes/no answers, and
    listing columns cut by UTF-8 byte width at character boundaries.
  - `flow.rs`: actions, events, messages and questions.
  - `ops.rs`, `history.rs`, `logview.rs`, `update.rs`, `merge.rs`,
    `setup.rs`: the dialogues (identity, remote, commit, push, branch,
    upload, revert, reset, log viewer, update, merge, settings, clone).
  - `session.rs`, `menu.rs`, `startup.rs`: running any dialogue, the main
    menu, and the start of the program.
  - `protocol.rs`: every dialogue waits for exactly the kind of event that
    its last action is answered by.
  - `runs.rs`: laws over whole runs: a reset only after its confirmations,
    at most one pull per update and only after a successful fetch, the
    menu's forced push only after a successful reset and two yes answers.
  - `records.rs`: commit records from `git log` output; the log viewer reads
    records and fields by separator characters, so a body keeps all its
    lines.
- `app/main.rs` performs the actions: the terminal, the file system and `git`.
- `tests/` drive the dialogues with scripted events.
