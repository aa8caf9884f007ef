//! Account status payloads.
use crate::be_bytes::{lemma_u64_be, push_u64_be, read_u64_be, spec_u64_be};
use crate::payloads::common::{
    invalid_data,
    bool_byte, decode_bool, decode_sized_string, encode_sized_string, lemma_concat_prefix,
    lemma_sized_string_shape, lemma_sized_string_unique, lemma_split_at, require_fully_consumed,
    spec_bool_byte, spec_sized_string, spec_string_fits, PayloadError,
};
use vstd::prelude::*;

verus! {

/// Sent by the client (established, registered) to ask for its account
/// status. Carries no fields.
#[derive(Debug, Clone, PartialEq, Eq)]
pub struct QueryAccountStatusPayload;

impl QueryAccountStatusPayload {
    /// Encodes the (empty) payload.
    pub fn encode(&self) -> (v: Vec<u8>)
        ensures
            v@ == Seq::<u8>::empty(),
    {
        Vec::new()
    }

    /// Decodes the payload; fails exactly when `bytes` is not empty.
    pub fn decode(bytes: &[u8]) -> (r: Result<Self, PayloadError>)
        ensures
            r is Ok <==> bytes@.len() == 0,
            r matches Err(e) ==> e is InvalidData,
    {
        require_fully_consumed(bytes, 0, "query_account_status")?;
        Ok(Self)
    }
}

/// Sent by the server in answer to `QueryAccountStatusPayload`, only to
/// the authenticated owner of the account. `ban_reason` matters only when
/// banned; the expiry only when the subscription is active.
#[derive(Debug, Clone, PartialEq, Eq)]
pub struct AccountStatusResponsePayload {
    pub is_banned: bool,
    pub ban_reason: String,
    pub subscription_active: bool,
    /// Unix timestamp (seconds) when the subscription expires.
    pub subscription_expiry_timestamp: u64,
}

impl AccountStatusResponsePayload {
    /// Whether the payload can be encoded.
    pub open spec fn spec_fits(&self) -> bool {
        spec_string_fits(self.ban_reason@)
    }

    /// The subscription fields on the wire: flag byte, then expiry.
    pub open spec fn spec_subscription_bytes(&self) -> Seq<u8> {
        seq![spec_bool_byte(self.subscription_active)] + spec_u64_be(
            self.subscription_expiry_timestamp,
        )
    }

    /// The wire form: banned flag, length-prefixed reason, subscription
    /// flag, expiry.
    pub open spec fn spec_encoding(&self) -> Seq<u8> {
        seq![spec_bool_byte(self.is_banned)] + spec_sized_string(self.ban_reason@)
            + self.spec_subscription_bytes()
    }

    /// Encodes the payload; fails exactly when the reason is too long.
    pub fn encode(&self) -> (r: Result<Vec<u8>, PayloadError>)
        ensures
            match r {
                Ok(v) => self.spec_fits() && v@ == self.spec_encoding(),
                Err(e) => !self.spec_fits() && e is InvalidInput,
            },
    {
        let ban_reason = encode_sized_string(self.ban_reason.as_str())?;
        let mut out: Vec<u8> = Vec::with_capacity(1 + ban_reason.len() + 1 + 8);
        out.push(bool_byte(self.is_banned));
        out.extend_from_slice(ban_reason.as_slice());
        out.push(bool_byte(self.subscription_active));
        push_u64_be(&mut out, self.subscription_expiry_timestamp);
        assert(out@ =~= self.spec_encoding());
        Ok(out)
    }

    /// Decodes the payload; fails exactly when `bytes` is not the wire form
    /// of any such payload.
    pub fn decode(bytes: &[u8]) -> (r: Result<Self, PayloadError>)
        ensures
            match r {
                Ok(p) => p.spec_fits() && p.spec_encoding() == bytes@,
                Err(e) => e is InvalidData && forall|p: Self|
                    #[trigger] p.spec_fits() ==> p.spec_encoding() != bytes@,
            },
    {
        if bytes.len() == 0 {
            return Err(invalid_data("account_status_response payload too short"));
        }
        let after = &bytes[1..bytes.len()];
        proof {
            assert forall|p: Self| #[trigger] p.spec_encoding() == bytes@ implies bytes@[0]
                == spec_bool_byte(p.is_banned) && after@ == spec_sized_string(p.ban_reason@)
                + p.spec_subscription_bytes() by {
                lemma_split_at(
                    seq![spec_bool_byte(p.is_banned)],
                    spec_sized_string(p.ban_reason@) + p.spec_subscription_bytes(),
                );
                assert(p.spec_encoding() =~= seq![spec_bool_byte(p.is_banned)] + (
                spec_sized_string(p.ban_reason@) + p.spec_subscription_bytes()));
            }
        }
        let is_banned = match decode_bool(bytes[0], "account_status_response is_banned") {
            Ok(b) => b,
            Err(e) => {
                return Err(e);
            },
        };
        let (ban_reason, consumed) = match decode_sized_string(after) {
            Ok(x) => x,
            Err(e) => {
                proof {
                    assert forall|p: Self| #[trigger] p.spec_fits() implies p.spec_encoding()
                        != bytes@ by {
                        if p.spec_encoding() == bytes@ {
                            lemma_concat_prefix(
                                spec_sized_string(p.ban_reason@),
                                p.spec_subscription_bytes(),
                            );
                        }
                    }
                }
                return Err(e);
            },
        };
        let rest = &after[consumed..after.len()];
        proof {
            assert forall|p: Self| #[trigger] p.spec_fits() && p.spec_encoding()
                == bytes@ implies rest@ == p.spec_subscription_bytes() by {
                lemma_concat_prefix(spec_sized_string(p.ban_reason@), p.spec_subscription_bytes());
                lemma_sized_string_unique(p.ban_reason@, ban_reason@, after@);
            }
        }
        if rest.len() != 9 {
            proof {
                assert forall|p: Self| #[trigger] p.spec_fits() implies p.spec_encoding()
                    != bytes@ by {
                    lemma_u64_be(p.subscription_expiry_timestamp, seq![]);
                }
            }
            return Err(invalid_data("account_status_response missing subscription fields"));
        }
        let subscription_active = match decode_bool(
            rest[0],
            "account_status_response subscription_active",
        ) {
            Ok(b) => b,
            Err(e) => {
                return Err(e);
            },
        };
        let subscription_expiry_timestamp = read_u64_be(rest, 1);
        let consumed_all = 1 + consumed + 9;
        require_fully_consumed(bytes, consumed_all, "account_status_response")?;
        let p = Self { is_banned, ban_reason, subscription_active, subscription_expiry_timestamp };
        proof {
            lemma_u64_be(subscription_expiry_timestamp, rest@.subrange(1, 9));
            assert(rest@ =~= seq![rest@[0]] + rest@.subrange(1, 9));
            assert(after@ =~= after@.subrange(0, consumed as int) + rest@);
            assert(bytes@ =~= seq![bytes@[0]] + after@);
            assert(p.spec_encoding() =~= bytes@);
        }
        Ok(p)
    }
}

/// An account status response is determined by its wire form.
pub proof fn lemma_account_status_response_encoding_injective(
    a: AccountStatusResponsePayload,
    b: AccountStatusResponsePayload,
)
    requires
        a.spec_fits(),
        b.spec_fits(),
        a.spec_encoding() == b.spec_encoding(),
    ensures
        a.is_banned == b.is_banned,
        a.ban_reason@ == b.ban_reason@,
        a.subscription_active == b.subscription_active,
        a.subscription_expiry_timestamp == b.subscription_expiry_timestamp,
{
    let w = a.spec_encoding();
    let ta = spec_sized_string(a.ban_reason@) + a.spec_subscription_bytes();
    let tb = spec_sized_string(b.ban_reason@) + b.spec_subscription_bytes();
    assert(w =~= seq![spec_bool_byte(a.is_banned)] + ta);
    assert(b.spec_encoding() =~= seq![spec_bool_byte(b.is_banned)] + tb);
    lemma_split_at(seq![spec_bool_byte(a.is_banned)], ta);
    lemma_split_at(seq![spec_bool_byte(b.is_banned)], tb);
    assert(w[0] == spec_bool_byte(a.is_banned));
    lemma_concat_prefix(spec_sized_string(a.ban_reason@), a.spec_subscription_bytes());
    lemma_concat_prefix(spec_sized_string(b.ban_reason@), b.spec_subscription_bytes());
    lemma_sized_string_unique(a.ban_reason@, b.ban_reason@, ta);
    let sa = a.spec_subscription_bytes();
    let sb = b.spec_subscription_bytes();
    assert(sa == sb);
    lemma_split_at(seq![spec_bool_byte(a.subscription_active)], spec_u64_be(a.subscription_expiry_timestamp));
    lemma_split_at(seq![spec_bool_byte(b.subscription_active)], spec_u64_be(b.subscription_expiry_timestamp));
    assert(sa[0] == spec_bool_byte(a.subscription_active));
    assert(sb[0] == spec_bool_byte(b.subscription_active));
    lemma_u64_be(a.subscription_expiry_timestamp, seq![]);
    lemma_u64_be(b.subscription_expiry_timestamp, seq![]);
}

} // verus!
