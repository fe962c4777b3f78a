# sandbox

A small todo web service (axum + PostgreSQL) whose decisions are verified
with Verus.

- `src/` is the verified library:
  - `todo`: the todo model (`Todo`, the database row `TodoRow`, `Json`).
  - `status`, `error`: the statuses answered, the client errors
    (`ApiError`) and the database failures (`DbError`).
  - `decimal`: decimal rendering of integers, used in error messages.
  - `handlers`: what each endpoint answers for each database outcome.
  - `statements`: the SQL each endpoint sends, with a model of what each
    statement may answer and do to the `todos` table.
  - `laws`: what follows across requests under that model (a read after a
    create, update or delete; missing ids; success statuses).
  - `settings`: which environment and configuration sources are used.
  - `request_id`: the UUID request id of every incoming request.
- `app/` holds the HTTP server, the database calls, JSON (de)serialisation,
  configuration loading and telemetry, and calls the library for every
  decision.
- `tests/` runs the library on the cases the service handles.
