# paperside_api

The request logic of the Paperside API, a small service where users log in and
share reference items (titles, urls, authors), written in Verus.

- `src/` is the verified library. Each request handler is split at its edges:
  the library decides, step by step, what to load, store or answer, and the
  program around it performs the database and cookie work in between. Random
  tokens, bcrypt hashing and the clock are called from the library through
  small trusted wrappers whose contracts say what those crates promise.
  `src/app/proofs.rs` states the properties that span several steps (a login
  session authenticates its user, a logout ends it, a login cookie opens the
  session it was made for and stays valid for fourteen days, a registered
  account logs in with its password, a submission names the item it answers
  with).
- `tests/` runs the library on concrete values.
- `app/` is the server program: actix-web and Rocket handlers, diesel queries
  against PostgreSQL, argon2 hashing, configuration from the environment.
