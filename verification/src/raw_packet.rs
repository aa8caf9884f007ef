//! A packet as handed to the application: its header and its (plaintext)
//! payload.
use crate::header::PacketHeader;
use vstd::prelude::*;

verus! {

/// A received or constructed packet.
#[derive(Debug, Clone)]
pub struct RawPacket {
    pub header: PacketHeader,
    pub payload: Vec<u8>,
}

impl RawPacket {
    /// Pairs a header with its payload.
    pub fn new(header: PacketHeader, payload: Vec<u8>) -> (p: Self)
        ensures
            p.header == header,
            p.payload@ == payload@,
    {
        Self { header, payload }
    }
}

} // verus!
