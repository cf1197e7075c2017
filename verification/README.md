# rustitch

Building blocks for Twitch integrations, with their logic verified by Verus.

- `src/` is the verified library: identifiers and secrets; instants and
  spans of time; OAuth request forms and the interpretation of OAuth
  responses; the in-memory token store and the static and Twitch token
  providers; Helix request validation, URLs, rate-limit headers and error
  bodies; EventSub webhook header parsing, signature checks, replay windows
  and the in-memory replay store; chat send requests and transport
  selection; and the task runner's command table. Calls into `secrecy`,
  `time`, `hmac`/`sha2`, `reqwest` (URLs, HTTP client construction) and
  `tokio-util` go through small trusted wrappers whose contracts are stated
  beside them.
- `app/` performs the I/O around the library: HTTP requests for the OAuth
  and Helix APIs, async token-store, token-provider and replay-store
  boundaries, broadcast dispatch, webhook header extraction from `axum`
  requests, serde forms of the wire types, `Display` forms of the errors,
  and the task runner's process handling.
- `tests/` exercises the library on concrete values.
