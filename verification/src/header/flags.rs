//! Bits of `PacketHeader::flags`.
//!
//! Only `ENCRYPTED` is defined; the other seven bits are free.
use vstd::prelude::*;

verus! {

/// Set when the payload is sealed with the transport session key.
pub const ENCRYPTED: u8 = 1u8;

} // verus!
