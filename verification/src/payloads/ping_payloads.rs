//! The keepalive payloads.
use crate::be_bytes::{lemma_u64_be, push_u64_be, spec_u64_be};
use crate::payloads::common::{decode_exact_u64, PayloadError};
use vstd::prelude::*;

verus! {

/// A keepalive probe carrying the sender's timestamp.
#[derive(Debug, Clone, PartialEq, Eq)]
pub struct PingPayload {
    pub timestamp: u64,
}

impl PingPayload {
    /// The payload's wire form: the timestamp, big-endian.
    pub open spec fn spec_encoding(&self) -> Seq<u8> {
        spec_u64_be(self.timestamp)
    }

    /// Encodes the payload.
    pub fn encode(&self) -> (v: Vec<u8>)
        ensures
            v@ == self.spec_encoding(),
    {
        let mut out: Vec<u8> = Vec::new();
        push_u64_be(&mut out, self.timestamp);
        out
    }

    /// Decodes the payload; fails exactly when `bytes` is not 8 bytes long.
    pub fn decode(bytes: &[u8]) -> (r: Result<Self, PayloadError>)
        ensures
            match r {
                Ok(p) => p.spec_encoding() == bytes@,
                Err(e) => e is InvalidData && bytes@.len() != 8 && forall|p: Self|
                    #[trigger] p.spec_encoding() != bytes@,
            },
    {
        let timestamp = decode_exact_u64(bytes, "ping")?;
        Ok(Self { timestamp })
    }
}

/// The answer to a ping, echoing a timestamp.
#[derive(Debug, Clone, PartialEq, Eq)]
pub struct PongPayload {
    pub timestamp: u64,
}

impl PongPayload {
    /// The payload's wire form: the timestamp, big-endian.
    pub open spec fn spec_encoding(&self) -> Seq<u8> {
        spec_u64_be(self.timestamp)
    }

    /// Encodes the payload.
    pub fn encode(&self) -> (v: Vec<u8>)
        ensures
            v@ == self.spec_encoding(),
    {
        let mut out: Vec<u8> = Vec::new();
        push_u64_be(&mut out, self.timestamp);
        out
    }

    /// Decodes the payload; fails exactly when `bytes` is not 8 bytes long.
    pub fn decode(bytes: &[u8]) -> (r: Result<Self, PayloadError>)
        ensures
            match r {
                Ok(p) => p.spec_encoding() == bytes@,
                Err(e) => e is InvalidData && bytes@.len() != 8 && forall|p: Self|
                    #[trigger] p.spec_encoding() != bytes@,
            },
    {
        let timestamp = decode_exact_u64(bytes, "pong")?;
        Ok(Self { timestamp })
    }
}

/// Keepalive payloads round-trip: equal wire forms mean equal timestamps.
pub proof fn lemma_ping_pong_encoding_injective(a: u64, b: u64)
    requires
        spec_u64_be(a) == spec_u64_be(b),
    ensures
        a == b,
{
    lemma_u64_be(a, seq![]);
    lemma_u64_be(b, seq![]);
}

} // verus!
