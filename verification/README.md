# chess_server

Backend of an online chess service: accounts, games between two players,
moves checked against the rules of chess, resignation, abandonment after a
disconnection, Elo ratings, game history and a rating table.

- `src/` is the library, verified with Verus. It holds the decisions: who may
  join, move or resign, how a game ends, when an absent player forfeits, how
  ratings move, how requests are validated and how errors are answered.
  Chess rules come from `shakmaty`, password hashing from `argon2` and the
  signing and checking of bearer tokens (JWT) from `jsonwebtoken`, called
  through small trusted wrappers whose contracts are stated in
  `src/board.rs`, `src/auth.rs` and `src/token.rs`. Properties that span several functions
  are proved in `src/laws.rs`.
- `app/` is the server around it: HTTP and WebSocket handlers (`axum`), the
  PostgreSQL queries (`sqlx`), the clock, the OpenAPI document
  (`utoipa`) and the Elo formula, which works on floating point.
- `tests/` runs the library on concrete values.
