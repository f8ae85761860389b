# cc-switch server core

The verified core of the standalone HTTP server of CC Switch: the command
dispatcher behind `POST /api/{command}`, the answers it gives on its own,
and the decisions of start-up, logging and the event stream.

- `src/` — the library, verified with Verus.
  - `json` — the JSON model that request arguments arrive in.
  - `args` — the readers of named arguments and their error messages.
  - `table` — every command the dispatcher knows, with its arguments.
  - `dispatch` — the decision for a request: run a command or answer.
  - `reply` — JSON error bodies and the status of failed commands.
  - `commands` — backups, import/export, OMO and the file dialogs.
  - `seed`, `startup` — the steps of the first-start import and of start-up.
  - `server`, `logging` — listen address, front page, event stream, log lines.
- `app/` — the axum server, the logger, the start-up runner and the
  runners of the commands whose decisions the library makes, over a
  `Backend` trait that the application's storage and command layer
  implements.
- `tests/` — tests of the library on concrete requests and runs.
