# messaging_app_backend

The core of a messaging server, verified with Verus: configuration,
login sessions, signed access and refresh tokens with their expiry, request validation, rate limiting, the circuit
breaker, metrics registration, WebSocket signalling, and the permission
rules of the chat, group, media and status handlers.

- `src/` is the library, and Verus checks every function there against its
  contract. The calls into other crates (bcrypt, regex, validator, serde_json,
  jsonwebtoken, uuid, prometheus, chrono, rand) and into the clock go through
  small trusted wrappers whose contracts are stated next to them; where a
  result rests on the clock or on chance, the contract says what holds of
  every outcome, or nothing.
- `app/` is the server around it: the axum router, Postgres and Redis
  access, WebSocket plumbing, uploads to disk and email
  delivery. It asks the library what to do and performs the I/O.
- `tests/` runs the library on concrete inputs.
