//! Device authentication payloads.
use crate::crypto::e2e::{ML_DSA_65_SIG_SIZE, ML_DSA_65_VK_SIZE};
use crate::payloads::common::{
    invalid_data,
    array_from_slice, decode_sized_bytes, encode_sized_bytes, lemma_concat_prefix,
    lemma_sized_bytes_injective, lemma_sized_bytes_unique, lemma_split_at, require_fully_consumed,
    spec_bytes_fit, spec_sized_bytes, PayloadError,
};
use vstd::prelude::*;

verus! {

/// Server to client: a random nonce the client signs, together with the
/// handshake transcript, to prove its identity.
#[derive(Debug, Clone, PartialEq, Eq)]
pub struct AuthChallengePayload {
    pub nonce: [u8; 32],
}

impl AuthChallengePayload {
    /// The wire form: the nonce.
    pub open spec fn spec_encoding(&self) -> Seq<u8> {
        self.nonce@
    }

    /// Encodes the payload.
    pub fn encode(&self) -> (v: Vec<u8>)
        ensures
            v@ == self.spec_encoding(),
    {
        let mut out: Vec<u8> = Vec::new();
        out.extend_from_slice(self.nonce.as_slice());
        out
    }

    /// Decodes the payload; fails exactly when `bytes` is not 32 bytes
    /// long.
    pub fn decode(bytes: &[u8]) -> (r: Result<Self, PayloadError>)
        ensures
            match r {
                Ok(p) => p.spec_encoding() == bytes@,
                Err(e) => e is InvalidData && bytes@.len() != 32,
            },
    {
        if bytes.len() != 32 {
            return Err(invalid_data("auth_challenge must be exactly 32 bytes"));
        }
        let nonce: [u8; 32] = array_from_slice(bytes);
        Ok(Self { nonce })
    }
}

/// Client to server: the ML-DSA-65 identity proof. `signature` covers
/// `transcript_hash || nonce`; `attestation_token` is an optional device
/// attestation chain (the server must accept an empty one).
#[derive(Debug, Clone, PartialEq, Eq)]
pub struct AuthResponsePayload {
    pub public_key: [u8; 1952],
    pub signature: [u8; 3309],
    pub attestation_token: Vec<u8>,
}

impl AuthResponsePayload {
    /// Whether the payload can be encoded.
    pub open spec fn spec_fits(&self) -> bool {
        spec_bytes_fit(self.attestation_token@)
    }

    /// The wire form: the key, the signature, then the length-prefixed
    /// attestation token.
    pub open spec fn spec_encoding(&self) -> Seq<u8> {
        self.public_key@ + self.signature@ + spec_sized_bytes(self.attestation_token@)
    }

    /// Encodes the payload; fails exactly when the token is too long.
    pub fn encode(&self) -> (r: Result<Vec<u8>, PayloadError>)
        ensures
            match r {
                Ok(v) => self.spec_fits() && v@ == self.spec_encoding(),
                Err(e) => !self.spec_fits() && e is InvalidInput,
            },
    {
        let att = encode_sized_bytes(self.attestation_token.as_slice())?;
        let mut out: Vec<u8> = Vec::new();
        out.extend_from_slice(self.public_key.as_slice());
        out.extend_from_slice(self.signature.as_slice());
        out.extend_from_slice(att.as_slice());
        assert(out@ =~= self.spec_encoding());
        Ok(out)
    }

    /// Decodes the payload; fails exactly when `bytes` is not the wire form
    /// of any auth response.
    pub fn decode(bytes: &[u8]) -> (r: Result<Self, PayloadError>)
        ensures
            match r {
                Ok(p) => p.spec_fits() && p.spec_encoding() == bytes@,
                Err(e) => e is InvalidData && forall|p: Self|
                    #[trigger] p.spec_fits() ==> p.spec_encoding() != bytes@,
            },
    {
        let fixed = ML_DSA_65_VK_SIZE + ML_DSA_65_SIG_SIZE;
        if bytes.len() < fixed + 4 {
            proof {
                assert forall|p: Self| #[trigger] p.spec_fits() implies p.spec_encoding()
                    != bytes@ by {
                    lemma_sized_bytes_injective(p.attestation_token@, p.attestation_token@);
                    crate::payloads::common::lemma_sized_bytes_shape(p.attestation_token@);
                }
            }
            return Err(invalid_data("auth_response too short"));
        }
        let tail = &bytes[fixed..bytes.len()];
        proof {
            assert forall|p: Self| #[trigger] p.spec_encoding() == bytes@ implies spec_sized_bytes(
                p.attestation_token@,
            ) == tail@ && p.public_key@ + p.signature@ == bytes@.subrange(0, fixed as int) by {
                lemma_split_at(p.public_key@ + p.signature@, spec_sized_bytes(p.attestation_token@));
            }
        }
        let (attestation_token, att_consumed) = match decode_sized_bytes(tail) {
            Ok(x) => x,
            Err(e) => {
                proof {
                    assert forall|p: Self| #[trigger] p.spec_fits() implies p.spec_encoding()
                        != bytes@ by {
                        if p.spec_encoding() == bytes@ {
                            lemma_concat_prefix(spec_sized_bytes(p.attestation_token@), seq![]);
                            assert(spec_sized_bytes(p.attestation_token@) + seq![] =~= tail@);
                        }
                    }
                }
                return Err(e);
            },
        };
        if bytes.len() != fixed + att_consumed {
            proof {
                assert forall|p: Self| #[trigger] p.spec_fits() implies p.spec_encoding()
                    != bytes@ by {
                    if p.spec_encoding() == bytes@ {
                        lemma_concat_prefix(spec_sized_bytes(p.attestation_token@), seq![]);
                        assert(spec_sized_bytes(p.attestation_token@) + seq![] =~= tail@);
                        lemma_sized_bytes_unique(p.attestation_token@, attestation_token@, tail@);
                    }
                }
            }
            return Err(invalid_data("auth_response payload length mismatch"));
        }
        let public_key: [u8; 1952] = array_from_slice(&bytes[0..ML_DSA_65_VK_SIZE]);
        let signature: [u8; 3309] = array_from_slice(&bytes[ML_DSA_65_VK_SIZE..fixed]);
        let p = Self { public_key, signature, attestation_token };
        proof {
            assert(spec_sized_bytes(attestation_token@) =~= tail@);
            assert(p.spec_encoding() =~= bytes@);
        }
        Ok(p)
    }
}

/// Server to client: authentication accepted. Carries no fields.
#[derive(Debug, Clone, PartialEq, Eq)]
pub struct AuthAcceptPayload;

impl AuthAcceptPayload {
    /// Encodes the (empty) payload.
    pub fn encode(&self) -> (v: Vec<u8>)
        ensures
            v@ == Seq::<u8>::empty(),
    {
        Vec::new()
    }

    /// Decodes the payload; fails exactly when `bytes` is not empty.
    pub fn decode(bytes: &[u8]) -> (r: Result<Self, PayloadError>)
        ensures
            r is Ok <==> bytes@.len() == 0,
            r matches Err(e) ==> e is InvalidData,
    {
        require_fully_consumed(bytes, 0, "auth_accept")?;
        Ok(Self)
    }
}

/// Server to client: authentication rejected. Deliberately carries no
/// reason.
#[derive(Debug, Clone, PartialEq, Eq)]
pub struct AuthRejectPayload;

impl AuthRejectPayload {
    /// Encodes the (empty) payload.
    pub fn encode(&self) -> (v: Vec<u8>)
        ensures
            v@ == Seq::<u8>::empty(),
    {
        Vec::new()
    }

    /// Decodes the payload; fails exactly when `bytes` is not empty.
    pub fn decode(bytes: &[u8]) -> (r: Result<Self, PayloadError>)
        ensures
            r is Ok <==> bytes@.len() == 0,
            r matches Err(e) ==> e is InvalidData,
    {
        require_fully_consumed(bytes, 0, "auth_reject")?;
        Ok(Self)
    }
}

/// An auth response is determined by its wire form.
pub proof fn lemma_auth_response_encoding_injective(a: AuthResponsePayload, b: AuthResponsePayload)
    requires
        a.spec_fits(),
        b.spec_fits(),
        a.spec_encoding() == b.spec_encoding(),
    ensures
        a.public_key == b.public_key,
        a.signature == b.signature,
        a.attestation_token@ == b.attestation_token@,
{
    lemma_split_at(a.public_key@ + a.signature@, spec_sized_bytes(a.attestation_token@));
    lemma_split_at(b.public_key@ + b.signature@, spec_sized_bytes(b.attestation_token@));
    lemma_sized_bytes_injective(a.attestation_token@, b.attestation_token@);
    let w = a.spec_encoding();
    assert(a.public_key@ =~= w.subrange(0, 1952));
    assert(b.public_key@ =~= w.subrange(0, 1952));
    assert(a.signature@ =~= w.subrange(1952, 5261));
    assert(b.signature@ =~= w.subrange(1952, 5261));
    assert(a.public_key =~= b.public_key);
    assert(a.signature =~= b.signature);
}

} // verus!
