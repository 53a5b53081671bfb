# rincuma

The core of Rincuma, a self-hostable to-do list service, written in Verus.

- `src/` is the verified library: e-mail normalisation, the password policy
  (Argon2id hashes, a length limit checked before hashing), session tokens and
  the session cookie, session lifetime, configuration defaults, the error
  responses, and the decisions of the authentication and task endpoints. Task
  creation is a small state machine: the library names each database read or
  write it needs and decides on the answers.
- `app/` is the HTTP service around it: environment loading, the database
  models and connection, axum handlers that perform the I/O the library asks
  for, and the blocking-pool and concurrency limit for password hashing.
- `tests/` exercises the library.
