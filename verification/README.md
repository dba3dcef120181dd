# status_board

A status board for a set of HTTP services: it checks each service
periodically, shows a debounced status per service (a service is shown down
only after three failed checks in a row), records checks and incidents in
PostgreSQL, sends Telegram alerts when the shown status changes, and serves a
dashboard and a JSON API.

- `src/` is the verified library (Verus): the check rules and the debounce
  state machine (`checker`), the service state map (`state`), settings parsing
  (`config`), alert texts (`telegram`), what the endpoints answer (`routes`),
  text helpers (`text`) and the `chrono` calls for clock and RFC 3339 text
  (`time`).
- `app/` is the server around it: HTTP checks, database access, the axum
  router and JSON output.
- `tests/` exercises the library on concrete values.

The server reads its page template from `templates/index.html` at start-up.
