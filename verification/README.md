# chatix_protocol

Wire protocol and cryptographic core of the Chatix messaging system, written
in Verus: packet framing, the role-aware connection state machine, every
payload codec, the per-connection packet codec, and the three cryptographic
layers (device authentication, transport session, end-to-end encryption)
with safety numbers.

## Layout

- `src/` — the verified library.
  - `header.rs`, `packet_type.rs`, `connection_state.rs`, `raw_packet.rs`,
    `codec.rs`: framing, the state machine and the packet codec.
  - `payloads/`: one codec per packet type; `decode` succeeds exactly on
    the wire forms `encode` produces.
  - `crypto/`: `auth`, `session`, `e2e`, `safety_number`, and
    `primitives`, the only place that calls the cryptographic crates
    (`sha2`, `hkdf`, `x25519-dalek`, `ml-kem`, `ml-dsa`, `ring`,
    `rand_core`, `zeroize`). Each primitive is a small trusted wrapper whose
    contract states what the outside crate does; everything above it is
    proved against those contracts.
- `app/` — async reading and writing of packets over tokio streams, and an
  error type with `Display`, `std::error::Error` and an I/O variant.
- `tests/` — executable tests of the library.
