# quota_monitor

The verified core of a server that collects token-usage reports from a team's
clients and shows per-user quota use on a dashboard.

- `src/` is the library, verified with Verus: the two access gates and the
  personal access tokens (`auth`), what each public and admin endpoint answers
  for what the database gave back (`api`, `admin`), the SQL that the server
  runs (`db`), the dashboard page (`dashboard`) and the values exchanged
  (`models`).
- `app/` is the server around it: command line, HTTP routing with axum, the
  SQLite store with rusqlite, and the serde forms of the values.
- `tests/` runs the library on concrete inputs.
