# ventalibre_server

The account logic of a small marketplace backend, verified with Verus, and
the HTTP server around it.

- `src/` is the verified library: registration, login and bearer-token
  resolution as step functions (`models::auth`), the answer to each refused
  authentication (`error`), caller checks (`auth_util`), settings parsing
  (`config`), and helpers for text, tokens, passwords and identifiers
  (`util`). bcrypt, uuid and the system clock are reached through a few
  trusted wrappers whose contracts say what the library relies on.
- `app/` is the server: axum routes and request guards, SQLite access with
  sqlx, JWT signing and checking with jsonwebtoken, and the loops that run the
  library's step functions against the database.
- `tests/` exercise the library on concrete values.
