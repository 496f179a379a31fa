# tnbot_core

The verified core of Thunderbot, a stateful AI agent on Bluesky, written in
Verus. Verus checks every function in `src/` but the trusted wrappers
around outside crates (below); the public ones carry contracts that state
what they return or change.

Layout:

- `src/` — the library: configuration defaults, the Jetstream event model,
  mention filter, subscription URL and pipeline bookkeeping; thread
  reconstruction; the mention-handling state machine and reply backoff;
  health reporting; session cookies (AES-256-GCM, base64) and access checks;
  embedding and Gemini request retries; memory hashing, SQL filters and
  consolidation; the control deck's sessions and formatters.
- `tests/` — tests of the library on concrete values.
- `app/` — the I/O around it: the Jetstream socket loop, JSON shapes with
  their conversions, HTTP middleware, environment settings, the figures
  computed in floating point, and the loops that carry out the library's
  decisions (mention handling, pipeline workers, request retries, identity
  resolution) against the store, the PDS and the model.

Outside crates (aes-gcm, base64, hex, sha2, chrono, urlencoding, zstd, rand)
are called from `src/` through small trusted wrappers whose contracts state
what the crates document.
