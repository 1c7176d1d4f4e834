# auth_service

An authentication front for an nginx `auth_request` setup: `/login` sends the
user to Microsoft Entra (OpenID Connect, authorization-code flow with PKCE),
`/callback` completes the login, looks the user up in the user database and
sets a signed session cookie, and `/validate` checks that cookie.

- `src/` is the verified library (Verus): query-string parsing and
  percent-decoding, the store of pending logins, the cache of validated
  tokens, the claims of session tokens, and the decisions each endpoint
  takes, each with its contract and the laws that tie them together.
- `app/` is the service around it: actix-web endpoints, the identity
  provider and database clients, token signing with `jsonwebtoken`,
  configuration, and the Kafka consumer that keeps user records in sync.
- `tests/` runs the library on concrete values.
