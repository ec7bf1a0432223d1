# scheduler

A lightweight task scheduler (cron, one-off and interval triggers; command
and webhook actions) whose decision logic is a library verified with Verus.

## Layout

- `src/` – the verified library:
  - `trigger` – when a task runs next (cron in a named zone, one-off
    instants, fixed-delay and fixed-rate intervals);
  - `queue`, `engine` – the ordered run queue and the scheduler as a state
    machine from (state, event) to (state, action), with its laws;
  - `runner` – one run of a task: attempts, retries, the final status and
    the report sent back to the scheduler;
  - `executor` – how a command is invoked, webhook bodies and their
    templates, JSON escaping;
  - `access`, `query`, `rows`, `config`, `notify`, `web`, `model`, `text` –
    request policy, SQL statements, row conversion, settings, Gotify
    messages, static assets, the task model and string helpers.
- `app/` – the service around it: HTTP API (axum), SQLite (deadpool-sqlite),
  the event loop that performs the engine's actions, process and HTTP
  execution, command line and configuration file.
- `tests/` – tests of the library on concrete values.

Calls into outside crates that the library makes (cron, chrono, chrono-tz,
uuid, mime_guess) go through small trusted wrappers whose contracts are
stated next to them.
