# crypnotes

Domain rules of an end-to-end encrypted notes vault, written in Verus with
their contracts and proofs.

- `src/` is the verified library:
  - `crypto`: Argon2id key derivation, XChaCha20-Poly1305 payload encryption
    and data-key wrapping;
  - `doc`: the canonical note document (JSON text parsed and printed by
    `serde_json`), its validation, title derivation, size limit and
    text/checklist conversion;
  - `reminders` and `calendar`: the next instant a time-zone anchored
    reminder fires, with the daylight-saving rules;
  - `lifecycle`, `ids`, `versioning`, `text`: trash retention, UUID v7
    identifiers, format versions, Unicode whitespace trimming;
  - `ffi`: the service objects the mobile app calls.
- `tests/` exercises the library with the real outside crates linked.
- `app/` holds what stays outside verification: serde and error-message
  copies of the records, secret boxes, and the thread-safe service objects
  exported to the mobile app with uniffi.

Calls into outside crates go through small trusted functions whose contracts
are stated next to them; everything else is proved.
