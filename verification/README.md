# safe_surf_core

A privacy-first safety layer for browsing risky networks, written in Verus.

- `src/` is the verified library: configuration defaults, X25519/HKDF session
  keys and XChaCha20-Poly1305 encryption (`crypto`), explainable risk scoring
  (`risk_scorer`), HTML sanitization policy (`sanitization`), timing jitter and
  cover-traffic schedules (`privacy`), session management (`session`), the
  encrypted frame transport (`transport`), the Argon2id-keyed credential vault
  (`vault`), and the daemon's request decisions (`daemon`). Calls into
  cryptographic, HTML and regex crates sit behind small trusted wrappers whose
  contracts state what those crates document.
- `app/` is the program around it: the daemon (REST API, encrypted protocol
  listener, sanitizing HTTP proxy), the command-line client, serialization, and
  the asynchronous I/O.
- `tests/` exercises the library with known-answer vectors and scenarios.

Risk scores are kept in tenths (0 to 10); the program reports them as a
single-precision fraction.
