# wardnet

The verified core of `wardnetd`, a self-hosted network privacy gateway
daemon. The library is written in Verus: each public function carries a
`requires`/`ensures` contract, and the properties that span several calls are
stated and proved as proof functions (`lemma_*`).

## Layout

- `src/` — the verified library.
  - `wireguard` — aggregating per-peer WireGuard counters into interface
    stats; interface-name validation.
  - `key_store` — tunnel private keys kept in a secret store, keyed by tunnel
    UUID; `secret_store` holds the null and in-memory stores.
  - `release_verifier` — SHA-256 and minisign checks of release tarballs.
  - `binary_applier` — picking the daemon binary out of a release tarball,
    and the file operations that swap it in and roll it back, with their
    effect on a model of the filesystem.
  - `backup`, `pending`, `restore` — passphrase and compatibility checks,
    preview tokens with their expiry, the course of a restore, and the
    naming, recognition and expiry of `.bak-*` snapshots.
  - `error`, `auth`, `api` — application errors and their HTTP responses,
    request roles and contexts, the session cookie.
  - `text`, `paths` — text building and path handling the above rely on.
- `app/` — ordinary Rust around the library: the async service and HTTP
  layers, serde types, the WireGuard kernel backend, filesystem work, tracing
  setup.
- `tests/` — tests of the library through its public API.
