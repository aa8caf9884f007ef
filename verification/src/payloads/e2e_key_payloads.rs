//! Publishing and fetching end-to-end identity key bundles.
use crate::crypto::e2e::{E2ePublicKey, ML_DSA_65_VK_SIZE};
use crate::crypto::session::ML_KEM_768_EK_SIZE;
use crate::payloads::common::{
    invalid_data,
    array_from_slice, bool_byte, decode_bool_then_string, decode_exact_string, decode_sized_string,
    encode_sized_string, lemma_bool_then_string_injective, lemma_concat_prefix,
    lemma_sized_string_injective, lemma_sized_string_shape, lemma_sized_string_unique,
    lemma_split_at, spec_bool_then_string, spec_sized_string, spec_string_fits, PayloadError,
};
use vstd::prelude::*;

verus! {

/// Encoded size of an `E2ePublicKey` bundle: 32 + 1184 + 1952 bytes, no
/// length prefixes since every field has a fixed size.
pub const E2E_PUBLIC_KEY_SIZE: usize = 3168usize;

fn encode_e2e_public_key(key: &E2ePublicKey, out: &mut Vec<u8>)
    ensures
        final(out)@ == old(out)@ + key.spec_bytes(),
{
    out.extend_from_slice(key.x25519_public.as_slice());
    out.extend_from_slice(key.ml_kem_ek.as_slice());
    out.extend_from_slice(key.dsa_verifying_key.as_slice());
    assert(out@ =~= old(out)@ + key.spec_bytes());
}

/// Decodes a key bundle from exactly `E2E_PUBLIC_KEY_SIZE` bytes.
fn decode_e2e_public_key(bytes: &[u8]) -> (k: E2ePublicKey)
    requires
        bytes@.len() == E2E_PUBLIC_KEY_SIZE,
    ensures
        k.spec_bytes() == bytes@,
{
    let x25519_public: [u8; 32] = array_from_slice(&bytes[0..32]);
    let ml_kem_ek: [u8; 1184] = array_from_slice(&bytes[32..32 + ML_KEM_768_EK_SIZE]);
    let dsa_verifying_key: [u8; 1952] = array_from_slice(
        &bytes[32 + ML_KEM_768_EK_SIZE..E2E_PUBLIC_KEY_SIZE],
    );
    let k = E2ePublicKey { x25519_public, ml_kem_ek, dsa_verifying_key };
    assert(k.spec_bytes() =~= bytes@);
    k
}

/// Two key bundles with the same bytes are the same bundle.
pub proof fn lemma_e2e_key_bytes_injective(a: E2ePublicKey, b: E2ePublicKey)
    requires
        a.spec_bytes() == b.spec_bytes(),
    ensures
        a == b,
{
    let w = a.spec_bytes();
    assert(a.x25519_public@ =~= w.subrange(0, 32));
    assert(b.x25519_public@ =~= w.subrange(0, 32));
    assert(a.ml_kem_ek@ =~= w.subrange(32, 1216));
    assert(b.ml_kem_ek@ =~= w.subrange(32, 1216));
    assert(a.dsa_verifying_key@ =~= w.subrange(1216, 3168));
    assert(b.dsa_verifying_key@ =~= w.subrange(1216, 3168));
    assert(a.x25519_public =~= b.x25519_public);
    assert(a.ml_kem_ek =~= b.ml_kem_ek);
    assert(a.dsa_verifying_key =~= b.dsa_verifying_key);
}

/// Sent by the client (established) to publish its end-to-end identity
/// key bundle. The server only stores and forwards it.
#[derive(Debug, Clone, PartialEq, Eq)]
pub struct PublishE2eKeyPayload {
    pub key: E2ePublicKey,
}

impl PublishE2eKeyPayload {
    /// The wire form: the key bundle's bytes.
    pub open spec fn spec_encoding(&self) -> Seq<u8> {
        self.key.spec_bytes()
    }

    /// Encodes the payload.
    pub fn encode(&self) -> (v: Vec<u8>)
        ensures
            v@ == self.spec_encoding(),
    {
        let mut out: Vec<u8> = Vec::with_capacity(E2E_PUBLIC_KEY_SIZE);
        encode_e2e_public_key(&self.key, &mut out);
        out
    }

    /// Decodes the payload; fails exactly when `bytes` is not
    /// `E2E_PUBLIC_KEY_SIZE` bytes long.
    pub fn decode(bytes: &[u8]) -> (r: Result<Self, PayloadError>)
        ensures
            match r {
                Ok(p) => p.spec_encoding() == bytes@,
                Err(e) => e is InvalidData && bytes@.len() != E2E_PUBLIC_KEY_SIZE,
            },
    {
        if bytes.len() != E2E_PUBLIC_KEY_SIZE {
            return Err(
                if bytes.len() < E2E_PUBLIC_KEY_SIZE {
                    invalid_data("e2e public key bundle too short")
                } else {
                    invalid_data("publish_e2e_key payload length mismatch")
                },
            );
        }
        let key = decode_e2e_public_key(bytes);
        Ok(Self { key })
    }
}

/// Sent by the server in answer to `PublishE2eKeyPayload`.
#[derive(Debug, Clone, PartialEq, Eq)]
pub struct PublishE2eKeyResultPayload {
    pub success: bool,
    pub message: String,
}

impl PublishE2eKeyResultPayload {
    /// Whether the payload can be encoded.
    pub open spec fn spec_fits(&self) -> bool {
        spec_string_fits(self.message@)
    }

    /// The wire form: the success byte, then the length-prefixed message.
    pub open spec fn spec_encoding(&self) -> Seq<u8> {
        spec_bool_then_string(self.success, self.message@)
    }

    /// Encodes the payload; fails exactly when the message is too long.
    pub fn encode(&self) -> (r: Result<Vec<u8>, PayloadError>)
        ensures
            match r {
                Ok(v) => self.spec_fits() && v@ == self.spec_encoding(),
                Err(e) => !self.spec_fits() && e is InvalidInput,
            },
    {
        let message = encode_sized_string(self.message.as_str())?;
        let mut out: Vec<u8> = Vec::with_capacity(1 + message.len());
        out.push(bool_byte(self.success));
        out.extend_from_slice(message.as_slice());
        assert(out@ =~= self.spec_encoding());
        Ok(out)
    }

    /// Decodes the payload; fails exactly when `bytes` is not the wire form
    /// of any such payload.
    pub fn decode(bytes: &[u8]) -> (r: Result<Self, PayloadError>)
        ensures
            match r {
                Ok(p) => p.spec_fits() && p.spec_encoding() == bytes@,
                Err(e) => e is InvalidData && forall|p: Self|
                    #[trigger] p.spec_fits() ==> p.spec_encoding() != bytes@,
            },
    {
        match decode_bool_then_string(bytes, "publish_e2e_key_result") {
            Err(e) => {
                proof {
                    assert forall|p: Self| #[trigger] p.spec_fits() implies p.spec_encoding()
                        != bytes@ by {
                        assert(p.spec_encoding() == spec_bool_then_string(p.success, p.message@));
                    }
                }
                Err(e)
            },
            Ok((success, message)) => Ok(Self { success, message }),
        }
    }
}

/// Sent by the client to fetch another user's published key bundle.
#[derive(Debug, Clone, PartialEq, Eq)]
pub struct FetchE2eKeyPayload {
    pub target_username: String,
}

impl FetchE2eKeyPayload {
    /// Whether the payload can be encoded.
    pub open spec fn spec_fits(&self) -> bool {
        spec_string_fits(self.target_username@)
    }

    /// The wire form: the length-prefixed username.
    pub open spec fn spec_encoding(&self) -> Seq<u8> {
        spec_sized_string(self.target_username@)
    }

    /// Encodes the payload; fails exactly when the username is too long.
    pub fn encode(&self) -> (r: Result<Vec<u8>, PayloadError>)
        ensures
            match r {
                Ok(v) => self.spec_fits() && v@ == self.spec_encoding(),
                Err(e) => !self.spec_fits() && e is InvalidInput,
            },
    {
        encode_sized_string(self.target_username.as_str())
    }

    /// Decodes the payload; fails exactly when `bytes` is not the wire form
    /// of any such payload.
    pub fn decode(bytes: &[u8]) -> (r: Result<Self, PayloadError>)
        ensures
            match r {
                Ok(p) => p.spec_fits() && p.spec_encoding() == bytes@,
                Err(e) => e is InvalidData && forall|p: Self|
                    #[trigger] p.spec_fits() ==> p.spec_encoding() != bytes@,
            },
    {
        let target_username = decode_exact_string(bytes, "fetch_e2e_key")?;
        Ok(Self { target_username })
    }
}

/// Status byte of `E2eKeyResponsePayload`.
#[derive(Debug, Clone, Copy, PartialEq, Eq, Structural)]
pub enum E2eKeyStatus {
    Found,
    NotFound,
}

impl E2eKeyStatus {
    /// The status byte on the wire.
    pub open spec fn spec_code(self) -> u8 {
        match self {
            E2eKeyStatus::Found => 0,
            E2eKeyStatus::NotFound => 1,
        }
    }

    /// The status with wire code `v`; unknown codes are refused.
    fn from_u8(v: u8) -> (r: Result<Self, PayloadError>)
        ensures
            match r {
                Ok(s) => s.spec_code() == v,
                Err(e) => e is InvalidData && v != 0 && v != 1,
            },
    {
        match v {
            0 => Ok(Self::Found),
            1 => Ok(Self::NotFound),
            _ => Err(invalid_data("unknown e2e_key status")),
        }
    }
}

/// Sent by the server in answer to `FetchE2eKeyPayload`. `key` is `None`
/// when the user never published a bundle; the key material is then left
/// off the wire entirely.
#[derive(Debug, Clone, PartialEq, Eq)]
pub struct E2eKeyResponsePayload {
    pub username: String,
    pub key: Option<E2ePublicKey>,
}

impl E2eKeyResponsePayload {
    /// Whether the payload can be encoded.
    pub open spec fn spec_fits(&self) -> bool {
        spec_string_fits(self.username@)
    }

    /// What follows the username: `0` and the bundle, or just `1`.
    pub open spec fn spec_tail(&self) -> Seq<u8> {
        match self.key {
            Some(k) => seq![0u8] + k.spec_bytes(),
            None => seq![1u8],
        }
    }

    /// The wire form: the length-prefixed username, then the status byte
    /// and (when found) the key bundle.
    pub open spec fn spec_encoding(&self) -> Seq<u8> {
        spec_sized_string(self.username@) + self.spec_tail()
    }

    /// Encodes the payload; fails exactly when the username is too long.
    pub fn encode(&self) -> (r: Result<Vec<u8>, PayloadError>)
        ensures
            match r {
                Ok(v) => self.spec_fits() && v@ == self.spec_encoding(),
                Err(e) => !self.spec_fits() && e is InvalidInput,
            },
    {
        let mut out = encode_sized_string(self.username.as_str())?;
        match &self.key {
            Some(key) => {
                out.push(0u8);
                encode_e2e_public_key(key, &mut out);
            },
            None => out.push(1u8),
        }
        assert(out@ =~= self.spec_encoding());
        Ok(out)
    }

    /// Decodes the payload; fails exactly when `bytes` is not the wire form
    /// of any such payload (bad username, missing or unknown status byte,
    /// truncated key material, or trailing bytes).
    pub fn decode(bytes: &[u8]) -> (r: Result<Self, PayloadError>)
        ensures
            match r {
                Ok(p) => p.spec_fits() && p.spec_encoding() == bytes@,
                Err(e) => e is InvalidData && forall|p: Self|
                    #[trigger] p.spec_fits() ==> p.spec_encoding() != bytes@,
            },
    {
        let (username, consumed) = match decode_sized_string(bytes) {
            Ok(x) => x,
            Err(e) => {
                proof {
                    assert forall|p: Self| #[trigger] p.spec_fits() implies p.spec_encoding()
                        != bytes@ by {
                        lemma_concat_prefix(spec_sized_string(p.username@), p.spec_tail());
                    }
                }
                return Err(e);
            },
        };
        let rest = &bytes[consumed..bytes.len()];
        proof {
            assert forall|p: Self| #[trigger] p.spec_fits() && p.spec_encoding()
                == bytes@ implies rest@ == p.spec_tail() by {
                lemma_concat_prefix(spec_sized_string(p.username@), p.spec_tail());
                lemma_sized_string_unique(p.username@, username@, bytes@);
            }
            assert(bytes@ =~= bytes@.subrange(0, consumed as int) + rest@);
        }
        if rest.len() == 0 {
            return Err(invalid_data("e2e_key_response missing status byte"));
        }
        let status = match E2eKeyStatus::from_u8(rest[0]) {
            Ok(st) => st,
            Err(e) => {
                proof {
                    assert forall|p: Self| #[trigger] p.spec_fits() implies p.spec_encoding()
                        != bytes@ by {
                        if p.spec_encoding() == bytes@ {
                            assert(p.spec_tail()[0] == rest@[0]);
                        }
                    }
                }
                return Err(e);
            },
        };
        match status {
            E2eKeyStatus::Found => {
                if rest.len() != 1 + E2E_PUBLIC_KEY_SIZE {
                    proof {
                        assert forall|p: Self| #[trigger] p.spec_fits() implies p.spec_encoding()
                            != bytes@ by {
                            if p.spec_encoding() == bytes@ {
                                assert(p.spec_tail()[0] == rest@[0]);
                            }
                        }
                    }
                    return Err(
                        if rest.len() < 1 + E2E_PUBLIC_KEY_SIZE {
                            invalid_data("e2e public key bundle too short")
                        } else {
                            invalid_data("e2e_key_response payload length mismatch")
                        },
                    );
                }
                let key = decode_e2e_public_key(&rest[1..rest.len()]);
                let p = Self { username, key: Some(key) };
                proof {
                    assert(rest@ =~= seq![0u8] + key.spec_bytes());
                    assert(p.spec_encoding() =~= bytes@);
                }
                Ok(p)
            },
            E2eKeyStatus::NotFound => {
                if rest.len() != 1 {
                    proof {
                        assert forall|p: Self| #[trigger] p.spec_fits() implies p.spec_encoding()
                            != bytes@ by {
                            if p.spec_encoding() == bytes@ {
                                assert(p.spec_tail()[0] == rest@[0]);
                            }
                        }
                    }
                    return Err(invalid_data("e2e_key_response payload length mismatch"));
                }
                let p = Self { username, key: None };
                proof {
                    assert(rest@ =~= seq![1u8]);
                    assert(p.spec_encoding() =~= bytes@);
                }
                Ok(p)
            },
        }
    }
}

/// A key-publish payload is determined by its wire form.
pub proof fn lemma_publish_e2e_key_encoding_injective(
    a: PublishE2eKeyPayload,
    b: PublishE2eKeyPayload,
)
    requires
        a.spec_encoding() == b.spec_encoding(),
    ensures
        a.key == b.key,
{
    lemma_e2e_key_bytes_injective(a.key, b.key);
}

/// A publish result is determined by its wire form.
pub proof fn lemma_publish_e2e_key_result_encoding_injective(
    a: PublishE2eKeyResultPayload,
    b: PublishE2eKeyResultPayload,
)
    requires
        a.spec_fits(),
        b.spec_fits(),
        a.spec_encoding() == b.spec_encoding(),
    ensures
        a.success == b.success,
        a.message@ == b.message@,
{
    lemma_bool_then_string_injective(a.success, a.message@, b.success, b.message@);
}

/// A key fetch request is determined by its wire form.
pub proof fn lemma_fetch_e2e_key_encoding_injective(a: FetchE2eKeyPayload, b: FetchE2eKeyPayload)
    requires
        a.spec_fits(),
        b.spec_fits(),
        a.spec_encoding() == b.spec_encoding(),
    ensures
        a.target_username@ == b.target_username@,
{
    lemma_sized_string_injective(a.target_username@, b.target_username@);
}

/// A key response is determined by its wire form: the same username, and
/// either the same bundle or no bundle on both sides.
pub proof fn lemma_e2e_key_response_encoding_injective(
    a: E2eKeyResponsePayload,
    b: E2eKeyResponsePayload,
)
    requires
        a.spec_fits(),
        b.spec_fits(),
        a.spec_encoding() == b.spec_encoding(),
    ensures
        a.username@ == b.username@,
        a.key == b.key,
{
    let w = a.spec_encoding();
    lemma_concat_prefix(spec_sized_string(a.username@), a.spec_tail());
    lemma_concat_prefix(spec_sized_string(b.username@), b.spec_tail());
    lemma_sized_string_unique(a.username@, b.username@, w);
    let ta = a.spec_tail();
    let tb = b.spec_tail();
    assert(ta == tb);
    assert(ta[0] == tb[0]);
    match (a.key, b.key) {
        (Some(ka), Some(kb)) => {
            lemma_split_at(seq![0u8], ka.spec_bytes());
            lemma_split_at(seq![0u8], kb.spec_bytes());
            lemma_e2e_key_bytes_injective(ka, kb);
        },
        _ => {},
    }
}

/// The status byte of a key response, right after the username, is 0
/// exactly when a key bundle follows (then all 3168 bytes of it, and
/// nothing else), and 1 exactly when no key was found (then nothing
/// follows).
pub proof fn lemma_e2e_key_response_status_byte(p: E2eKeyResponsePayload)
    ensures
        ({
            let at = spec_sized_string(p.username@).len() as int;
            let e = p.spec_encoding();
            &&& e[at] == 0 <==> p.key is Some
            &&& e[at] == 1 <==> p.key is None
            &&& p.key is Some ==> e.len() == at + 1 + 3168 && e.subrange(at + 1, e.len() as int)
                == p.key->0.spec_bytes()
            &&& p.key is None ==> e.len() == at + 1
        }),
{
    let at = spec_sized_string(p.username@).len() as int;
    assert(p.spec_encoding()[at] == p.spec_tail()[0]);
    if p.key is Some {
        let k = p.key->0;
        assert(k.spec_bytes().len() == 3168);
        assert(p.spec_encoding().subrange(at + 1, p.spec_encoding().len() as int) =~= k.spec_bytes());
    }
}

} // verus!
