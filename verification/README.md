# backend_gateway

An ONDC/Beckn gateway, with its logic verified by Verus.

- `src/crypto.rs`: Ed25519 signatures carried as padded standard Base64
  (`sign_data`, `verify_data`), over the `ed25519-dalek` and `base64` crates.
- `src/base64_text.rs`: padded standard Base64 as a specification, with the
  facts that signing and checking rest on (length, padding, round trip).
- `src/registry.rs`: the registry of participants' verifying keys, the
  gateway's key material (`CryptoState`), and `verify_incoming_request`.
- `src/context.rs`: the Beckn context that the gateway puts on its messages.
- `src/gateway.rs`: what each endpoint decides, given the outcome of the
  store and of the request.
- `src/models.rs`: the message shapes.
- `app/`: the HTTP servers (actix-web), the Redis store, JSON and JWT
  encoding, and the pricing engine (`pricing-engine` argument).
