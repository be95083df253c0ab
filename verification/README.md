# webhook_gateway

A gateway between GitHub Enterprise / Rally webhooks and the services that act
on them.  A comment that reports time spent (`Thanks 1.5!`) becomes a
time-spent record for the work item (`DE1234`, `US5678`) named in the pull
request's title or the Rally artifact; a comment that asks for an OCR run
(`XT ABAs: ...`) becomes a task for the validation backend, its settings read
from `Key: value` lines.

## Layout

* `src/` — the library, verified with Verus:
  * `text.rs` — text utilities, the Unicode white-space and decimal-digit
    classes, and the trusted wrappers for digits outside ASCII and for
    upper-casing;
  * `constants.rs` — the keyword and time-spent patterns;
  * `colon_fields.rs` — the `Key: value` format of task requests;
  * `config_env.rs` — the configuration;
  * `events/` — GitHub and Rally events and the decisions they lead to;
  * `msg/` — time-spent reports, backend tasks and their handlers;
  * `github/`, `event/`, `channel/`, `handler/`, `backend_task.rs`,
    `time_spent.rs` — the earlier generation of the same logic.
* `app/` — the program: environment, HTTP endpoints, the message queue,
  Kafka and the GitHub and backend HTTP calls.
* `tests/` — tests of the library.
