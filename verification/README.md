# sheesh

Authentication building blocks: users whose passwords are stored as salted scrypt hashes,
sessions, and the access and refresh tokens that authorize them. Storage is supplied by the
caller through the `DbHarness*` traits; a store that keeps nothing (`StatelessSession`,
`StatelessToken`) is included.

Layout:

- `src/` is the library, verified with Verus: `time` (UTC instants and token expiration,
  computed through chrono), `secret` (scrypt hashing and checking, random salts and tokens),
  `id`, `errors`, `auth_token`, `session`, `user` (with `group_text`, the stored form of a
  user's groups) and `harness`.
- `app/` holds the SQLite stores (r2d2 and rusqlite) and the conversions between the library's
  plain values and `chrono`, `std::net` and `rusqlite` types.
- `tests/` exercises the library, with in-memory stores for the manager scenarios.
