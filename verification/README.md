# rust_rest_api

The request-handling logic of a small REST service for user records, written
in Verus and proved against its contracts, with the HTTP server, database and
file access around it in `app/`.

- `src/text.rs` — trimming, splitting, replacing and decimal notation, each
  with its meaning on character sequences.
- `src/error.rs`, `src/api_response.rs` — the errors, the response envelope
  and the HTTP status each answer is sent with.
- `src/context.rs`, `src/auth.rs` — the languages a request accepts and the
  bearer-token check.
- `src/messages.rs` — the message store, `.properties` loading and localized
  lookup with numbered placeholders.
- `src/setting.rs`, `src/rsa_crypt.rs` — settings, the database URL and pool
  limits, and the RSA/base64 encryption of the database password.
- `src/user.rs`, `src/repository.rs`, `src/service.rs`,
  `src/transaction.rs` — the user record, what each database outcome means,
  the answers of the user service and the transaction decisions.
- `tests/` — tests on concrete values; `app/` — the service itself.
