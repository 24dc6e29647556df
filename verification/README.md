# jitsi_openid

An OpenID Connect login adapter for Jitsi Meet. A user who opens a room is sent
to the identity provider; when the provider calls back, the adapter checks the
login, issues a short-lived Jitsi token (HS256 JWT) for that room and sends the
user into the room.

Layout:

- `src/` — the library, verified with Verus: configuration lists and defaults
  (`config`), login sessions (`session`), the decisions on ID tokens and user
  info (`claims`), the token payload and signing (`json`, `jwt`), room and
  redirect URLs and the session cookie (`web_url`), the steps of a login
  (`login`), and thin trusted wrappers around `time`, `uuid`, `url` and
  `jsonwebtoken` (`clock`, `ids`, and the wrappers in `web_url` and `jwt`).
- `app/` — the HTTP program: configuration read from the environment, the
  axum routes and server, and the OpenID Connect requests made with
  `openidconnect` and `reqwest`.
- `tests/` — tests of the library.
