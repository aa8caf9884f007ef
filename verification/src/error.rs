//! Errors raised by the protocol layer.
use vstd::prelude::*;

verus! {

/// Everything that can go wrong while framing, validating, sequencing or
/// protecting a packet.
#[derive(Debug)]
pub enum ProtocolError {
    /// The header does not start with the protocol magic.
    InvalidMagic,
    /// The header names a protocol version this crate does not speak.
    UnsupportedVersion(u8),
    /// The header's length field is not the fixed header length.
    InvalidHeaderLength,
    /// The payload is longer than allowed (globally or for its packet type).
    PayloadTooLarge { size: u32, max: u32 },
    /// The reserved header field is not zero.
    ReservedFieldNonZero,
    /// The packet type byte names no known packet type.
    UnknownPacketType(u8),
    /// The packet type is not acceptable in the current connection state.
    InvalidStateTransition,
    /// A payload could not be decoded.
    PayloadDecode { packet: String, reason: String },
    /// A sequence number did not strictly increase.
    SequenceViolation { got: u64, last: u64 },
    /// A session is established but an incoming packet was not encrypted.
    /// No cryptographic operation runs in this case: the packet is refused
    /// for breaking the "once established, everything is encrypted" rule.
    EncryptionRequired,
    /// A cryptographic operation (seal, open, sign, verify, key agreement)
    /// failed.
    CryptoError,
    /// A freshly fetched identity key differs from the one pinned for the
    /// same identifier.
    IdentityKeyChanged { identifier: String },
}

} // verus!
