# qqbot_channel

A webhook-first QQ Bot channel, with its logic verified in Verus.

- `src/` is the verified library: configuration defaults, webhook signature checks and
  validation answers (Ed25519 over hex), reading incoming QQ messages into envelopes,
  access control and pairing offers, the API requests that carry replies, the access-token
  rules, and the answer to every callback request.
- `app/` drives the library from a host: it reads and writes the workspace, makes HTTP
  requests, parses and writes JSON, logs, and carries out what the library decides.
- `tests/` runs the library on concrete inputs.
