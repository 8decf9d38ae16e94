# auth

Authentication, sessions, invitations, MFA and administration for a web
service, as a Verus-verified library.

- `src/` is the library. Every function in it is verified by Verus against its
  `requires`/`ensures`. Calls into outside crates (`sha2`, `fast32`, `rand`,
  `argon2`, `totp-rs`, `uuid`, `validator`, `rust_decimal`, `time`,
  `serde_json`) go through small trusted wrappers whose contracts state what
  those crates document.
- The services (login, MFA login, registration, sending invitations,
  administrative mutations) are state machines: `start` gives the first
  action, `step` takes what the caller got from performing it and gives the
  next action, until a `Reply`. The caller
  does the storage, cache and message-bus work; the library decides.
- Laws that span functions or whole runs are public proof functions, for
  example `account::lemma_register_success_needs_pinned_invite`,
  `mfa::lemma_mfa_token_consumed_only_on_valid_code` and
  `admin_flow::lemma_writes_need_authorization`.
- `tests/` runs the library on concrete values.
- `app/` is the server process around the library: the HTTP `/api/me`
  endpoint with its OpenAPI document, the cleanup cron, and administration
  commands, over Postgres.
