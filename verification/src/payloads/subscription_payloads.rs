//! Subscription status payloads.
use crate::be_bytes::{lemma_u64_be, push_u64_be, read_u64_be, spec_u64_be};
use crate::payloads::common::{
    invalid_data_count,
    bool_byte, decode_bool, lemma_split_at, require_fully_consumed, spec_bool_byte, PayloadError,
};
use vstd::prelude::*;

verus! {

/// Sent by the client (established) to ask for its subscription status.
/// Carries no fields.
#[derive(Debug, Clone, PartialEq, Eq)]
pub struct QuerySubscriptionStatusPayload;

impl QuerySubscriptionStatusPayload {
    /// Encodes the (empty) payload.
    pub fn encode(&self) -> (v: Vec<u8>)
        ensures
            v@ == Seq::<u8>::empty(),
    {
        Vec::new()
    }

    /// Decodes the payload; fails exactly when `bytes` is not empty.
    pub fn decode(bytes: &[u8]) -> (r: Result<Self, PayloadError>)
        ensures
            r is Ok <==> bytes@.len() == 0,
            r matches Err(e) ==> e is InvalidData,
    {
        require_fully_consumed(bytes, 0, "query_subscription_status")?;
        Ok(Self)
    }
}

/// Sent by the server in answer to `QuerySubscriptionStatusPayload`.
#[derive(Debug, Clone, PartialEq, Eq)]
pub struct SubscriptionStatusResponsePayload {
    pub is_active: bool,
    /// Unix timestamp (seconds) when the subscription expires; meaningful
    /// only when active.
    pub expiry_timestamp: u64,
}

impl SubscriptionStatusResponsePayload {
    /// The wire form: active flag, then the expiry.
    pub open spec fn spec_encoding(&self) -> Seq<u8> {
        seq![spec_bool_byte(self.is_active)] + spec_u64_be(self.expiry_timestamp)
    }

    /// Encodes the payload.
    pub fn encode(&self) -> (v: Vec<u8>)
        ensures
            v@ == self.spec_encoding(),
    {
        let mut out: Vec<u8> = Vec::with_capacity(9);
        out.push(bool_byte(self.is_active));
        push_u64_be(&mut out, self.expiry_timestamp);
        assert(out@ =~= self.spec_encoding());
        out
    }

    /// Decodes the payload; fails exactly when `bytes` is not 9 bytes long
    /// or its flag is not a canonical boolean.
    pub fn decode(bytes: &[u8]) -> (r: Result<Self, PayloadError>)
        ensures
            match r {
                Ok(p) => p.spec_encoding() == bytes@,
                Err(e) => e is InvalidData && forall|p: Self|
                    #[trigger] p.spec_encoding() != bytes@,
            },
    {
        if bytes.len() != 9 {
            proof {
                assert forall|p: Self| #[trigger] p.spec_encoding() != bytes@ by {
                    lemma_u64_be(p.expiry_timestamp, seq![]);
                }
            }
            return Err(invalid_data_count("invalid subscription_status_response length: expected 9, got ", bytes.len() as u64));
        }
        let is_active = match decode_bool(bytes[0], "subscription_status_response is_active") {
            Ok(b) => b,
            Err(e) => {
                proof {
                    assert forall|p: Self| #[trigger] p.spec_encoding() != bytes@ by {
                        if p.spec_encoding() == bytes@ {
                            assert(p.spec_encoding()[0] == spec_bool_byte(p.is_active));
                        }
                    }
                }
                return Err(e);
            },
        };
        let expiry_timestamp = read_u64_be(bytes, 1);
        let p = Self { is_active, expiry_timestamp };
        proof {
            lemma_u64_be(expiry_timestamp, bytes@.subrange(1, 9));
            assert(p.spec_encoding() =~= bytes@);
        }
        Ok(p)
    }
}

/// A subscription status response is determined by its wire form.
pub proof fn lemma_subscription_status_response_encoding_injective(
    a: SubscriptionStatusResponsePayload,
    b: SubscriptionStatusResponsePayload,
)
    requires
        a.spec_encoding() == b.spec_encoding(),
    ensures
        a == b,
{
    lemma_split_at(seq![spec_bool_byte(a.is_active)], spec_u64_be(a.expiry_timestamp));
    lemma_split_at(seq![spec_bool_byte(b.is_active)], spec_u64_be(b.expiry_timestamp));
    assert(a.spec_encoding()[0] == spec_bool_byte(a.is_active));
    assert(b.spec_encoding()[0] == spec_bool_byte(b.is_active));
    lemma_u64_be(a.expiry_timestamp, seq![]);
    lemma_u64_be(b.expiry_timestamp, seq![]);
}

} // verus!
