//! Wire protocol and cryptographic core for the Chatix messaging system:
//! packet framing, the connection state machine, payload codecs and the
//! three cryptographic layers (device authentication, transport session,
//! end-to-end encryption).

pub mod be_bytes;
pub mod text;
pub mod error;
pub mod header;
pub mod crypto;
pub mod packet_type;
pub mod connection_state;
pub mod payloads;
pub mod raw_packet;
pub mod codec;
