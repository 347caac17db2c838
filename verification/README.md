# waku

The logic of a desktop and browser client for coding agents, verified with Verus: which model is
offered and sent, how a task goes from a prompt to a turn, how its queue, checkpoints, forks and
rewinds behave, how the trajectory of a task is laid out, how settings are changed, and how the browser
talks to the daemon.

- `src/` is the library. Its functions compute from plain values and say in their contracts what comes
  out. Laws that relate several functions are public proof functions.
  - `composer` — picking a model, attachments, questions, branches, the controls around the prompt
  - `runtime` — tasks and agents: options, prompts, the queue, turns, checkpoints, forks, rewinds, and
    keeping the list of tasks like the daemon's
  - `trajectory` — the records of a task: ledger, timeline, search, details, JSON trees
  - `settings` — pages, accounts, providers, the daemon
  - `web` — the browser client: addresses, the connection, the transcript, the page
  - `ui`, `usage_meter` — looks and the usage meter
  - `text`, `text_set`, `key_map`, `sorting`, `ids`, `label`, `protocol`, `providers`, `session` — what
    the others are built on
- `tests/` runs the library.
- `app/` holds what touches files, sockets, threads and floating-point numbers.
