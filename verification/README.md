# engine

The core of a peer-to-peer room engine, verified with Verus.

`src/` is the verified library:

- `types` — rooms, the join request and answer, self-signed identities, and
  the engine's error type.
- `config` — the engine's port, which can be set once.
- `text` — decimal and lower-case hex text, ASCII case-insensitive matching.
- `crypto` — SHA-256 fingerprints, certificate pinning, self-signed
  identities, private keys read from PEM.
- `handshake` — the passcode exchange between a room's host and a joining
  peer, over plain TCP (digest of the passcode) and over TLS (the passcode
  as a length-prefixed message), as step functions from state and event to
  next state and action.
- `host` — the host's session after it creates a room: it accepts one
  connection, runs the digest check on it, and marks the room connected
  when the check succeeds.
- `rooms` — new room records, marking a room connected, listing the
  readable rooms, the database file and backend endpoints.
- `stun` — the STUN probe for the engine's public address: it builds the
  binding request, reads the answer for its transaction, and decides each
  step.
- `foreign` — declarations of the types of other crates that the library
  carries.

`app/` holds what performs I/O: the redb room store, serde and thiserror
copies of the library's types, the tokio and rustls plumbing that runs the
handshake steps, the UDP socket of the STUN probe, the listener that runs the host's
session, and the engine's entry points, exported through uniffi.
