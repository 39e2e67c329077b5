# crates_io

Request-handling rules of a package registry, written in Verus and proved against
their contracts:

- `errors`: the error values that the API answers with (status, details, the JSON
  body's content, rate-limit and insecure-token answers).
- `secret_scanning`: reports of exposed API tokens from GitHub and deps.dev — the
  reporters' public keys, a key cache with a time to live, the signature check of a
  report (base64, DER, PEM and ECDSA P-256 through the `base64` and `p256` crates),
  the decision for each reported token and the e-mail to its owner.
- `krate::delete`: when a crate may be deleted, as a step-by-step rule that asks for
  the download count and the reverse dependencies only when it needs them.
- `user`: locking and unlocking accounts, and the administrators' view.
- `time`, `text`: instants in microseconds and the clock; string helpers.

Waiting on the network or the database is left to `app/`, which drives the library's
decisions: it fetches keys when the cache asks for a refresh, runs the queries the
deletion rule asks for, and writes the lock fields the lock rules compute.
