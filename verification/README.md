# age-credentials

A keyring of age (X25519) identities: user identifiers with name and email
rules, fingerprints, passphrase-protected private keys, encryption to one or
several recipients, hexadecimal encoding, and account operations over a
storage backend that the user supplies.

The library under `src/` is written in Verus and verified: each public
function states what it returns in `ensures`, and the properties that span
several calls (hexadecimal round trips, encryption round trips, passphrase
changes, exports) are proof functions named `lemma_*`.

Layout:

- `src/handler/` — the error type and the data types with their validation.
- `src/agecore/` — encryption, decryption, passphrases, key generation,
  recipient lists, public-key checks, and the hex, JSON and TOML encodings.
- `src/domain/`, `src/crypto/`, `src/backend/`, `src/account/` — the account
  layer: its types and errors, its crypto helpers, the `AccountBackend` trait
  and `AccountEngine`.
- `src/config/` — the keyring directory layout.
- `src/rage.rs`, `src/digest.rs`, `src/secret.rs`, `src/text.rs` — the calls
  into `librage`, `age`, `bech32`, `x25519-dalek`, `sha2`, `zeroize` and std,
  each with the contract the rest of the library relies on.
- `app/` — file-system access and serde around the library: key files,
  recipient files, keyring directories, metadata and account export files.
