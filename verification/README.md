# passkeep

A small WebAuthn relying party, verified with Verus: it checks passkey
registration and assertion ceremonies (ES256, attestation `none` and `packed`
self attestation) and tells you what to store.

Layout:

- `src/` is the verified library. `registration.rs` and `assertion.rs` hold the
  two ceremonies and the laws about them; `client_data.rs`, `attestation.rs`,
  `auth_data.rs` and `cose.rs` the parsers and checks of the pieces of a
  response; `json.rs` finds the layout of a JSON document (where members and
  elements begin and end); `cbor.rs`, `json.rs`, `encoding.rs` and `crypto.rs`
  also hold the calls into the CBOR decoder, the JSON well-formedness check and
  string decoder, the base64url codec, SHA-256, ES256 verification and the OS
  random number generator, each behind a small trusted wrapper whose contract
  is stated over a named result.
- `tests/` runs the library end to end against a simulated authenticator.
- `app/` gives the error type its messages (`Display`, `std::error::Error`).
