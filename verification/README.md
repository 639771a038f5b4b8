# tower-defense

Authenticated JSON-RPC requests. A client signs each request with an Ed25519 key: the
signature covers the request id, a millisecond timestamp, the method name and the raw JSON
params. A server checks the signature and the timestamp and learns the libp2p-style peer id
of the signer.

Layout:

- `src/` — the verified library (Verus).
  - `crypto` — keys and signatures (calls `ed25519-dalek`), peer ids and multihashes
    (calls `multihash`, `bs58`, `quick-protobuf`, `sha2`).
  - `auth` — authenticated params: the signed material, signing and verification;
    `auth::timestamp` — the clock and the timestamp policies (`WithinDuration`,
    `LaterThanLast`).
  - `rpc` — request ids and error codes; `middleware` — what the signing and the checking
    middleware decide for each call.
- `app/` — serde forms of the library's types and the `jsonrpsee` middleware services.
- `tests/` — tests of the library, including RFC 8032 vectors.
