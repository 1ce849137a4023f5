# split_costs_rust_backend

A backend for sharing costs within groups of users: registration and login
with Argon2-hashed passwords and signed session cookies, groups, and the costs
of a group split into per-user quotas.

- `src/` is the verified library (Verus). It holds the decisions of every
  request handler, as functions from what the database answered to what
  happens next, with exact contracts; payload validation; password hashing and
  checking (Argon2, behind trusted wrappers); session claims; the parsing of
  the pool's settings; and a model of the tables (`src/routes/tables.rs`) over
  which the laws of the handlers are proved.
- `app/` is the axum service around it: HTTP extraction, diesel queries on a
  deadpool connection pool, JSON (serde) and JWT encoding, environment
  variables and the clock.
- `tests/` runs the library on concrete values.
