# eep2p

The protocol and state logic of a small peer-to-peer node whose connections
are encrypted with AES-256-GCM under a key agreed through X25519 and derived
with HKDF-SHA256, written in Verus.

- `src/` is the verified library. `src/primitives.rs` holds the contracts of
  the outside crates it calls (x25519-dalek, hkdf/sha2, aes-gcm, uuid,
  ed25519-dalek, timedmap, tokio's channels, and pgp for the node's PGP
  key and the messages addressed to it).
- `src/outbox.rs` wraps a channel's sending half with a record, for proofs,
  of every message handed to it and whether it could be queued; the
  contracts of the handlers, tasks and event loops say what they hand over.
- `app/` is the program around it: reading and writing the JSON
  configuration, the TCP sockets, the length-delimited MessagePack framing and
  the async event loops, which hand each event to the library's `step`
  functions and carry out the action each returns.
- `tests/` runs the library on concrete values, among them the X25519 test
  vectors of RFC 7748.
