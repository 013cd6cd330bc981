# axum_back

The rules of a student management web service (students, courses,
attendance, notices, timetables, assessments, grades, fees, and the admin
accounts that use them), written in Verus with their contracts proved.

- `src/` is the verified library: what each endpoint decides from the values
  it has read: login and password changes, bearer tokens, settings, lookups by
  UUID or code, searches, partial updates, attendance marking, the dashboard's
  alerts, tasks and weekly windows, reports, and the answers (status and
  message) that requests are refused with.  It calls `uuid`, `chrono` and
  `bcrypt` through a few trusted wrappers whose contracts are stated beside
  them.
- `app/` is the HTTP server around it (axum, sqlx on PostgreSQL, JSON): it
  reads requests and the database, hands the library plain values, and sends
  back what the library decides.  Floating-point rates, marks and amounts stay
  there.
- `tests/` runs the library on concrete values.
