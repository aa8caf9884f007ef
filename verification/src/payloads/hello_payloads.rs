//! Handshake payloads.
use crate::crypto::e2e::ML_DSA_65_SIG_SIZE;
use crate::crypto::session::{ML_KEM_768_CT_SIZE, ML_KEM_768_EK_SIZE};
use crate::payloads::common::{
    invalid_data,
    array_from_slice, bool_byte, decode_bool, decode_string_then_fixed, encode_sized_string,
    lemma_string_then_fixed_injective, spec_bool_byte, spec_string_fits, spec_string_then_fixed,
    PayloadError,
};
use vstd::prelude::*;

verus! {

/// Sent by the client to open the handshake: its identity and the
/// ephemeral public keys for the hybrid X25519 + ML-KEM-768 exchange.
#[derive(Debug, Clone, PartialEq, Eq)]
pub struct ClientHelloPayload {
    pub client_id: String,
    /// Ephemeral X25519 public key.
    pub x25519_public_key: [u8; 32],
    /// ML-KEM-768 encapsulation key.
    pub ml_kem_ek: [u8; 1184],
}

impl ClientHelloPayload {
    /// Whether the payload can be encoded.
    pub open spec fn spec_fits(&self) -> bool {
        spec_string_fits(self.client_id@)
    }

    /// The wire form: the length-prefixed client id, then the two keys.
    pub open spec fn spec_encoding(&self) -> Seq<u8> {
        spec_string_then_fixed(self.client_id@, self.x25519_public_key@ + self.ml_kem_ek@)
    }

    /// Encodes the payload; fails exactly when the id is too long.
    pub fn encode(&self) -> (r: Result<Vec<u8>, PayloadError>)
        ensures
            match r {
                Ok(v) => self.spec_fits() && v@ == self.spec_encoding(),
                Err(e) => !self.spec_fits() && e is InvalidInput,
            },
    {
        let mut out = encode_sized_string(self.client_id.as_str())?;
        out.extend_from_slice(self.x25519_public_key.as_slice());
        out.extend_from_slice(self.ml_kem_ek.as_slice());
        assert(out@ =~= self.spec_encoding());
        Ok(out)
    }

    /// Decodes the payload; fails exactly when `bytes` is not the wire form
    /// of any client hello.
    pub fn decode(bytes: &[u8]) -> (r: Result<Self, PayloadError>)
        ensures
            match r {
                Ok(p) => p.spec_fits() && p.spec_encoding() == bytes@,
                Err(e) => e is InvalidData && forall|p: Self|
                    #[trigger] p.spec_fits() ==> p.spec_encoding() != bytes@,
            },
    {
        match decode_string_then_fixed(bytes, 32 + ML_KEM_768_EK_SIZE, "client_hello") {
            Err(e) => {
                proof {
                    assert forall|p: Self| #[trigger] p.spec_fits() implies p.spec_encoding()
                        != bytes@ by {
                        assert((p.x25519_public_key@ + p.ml_kem_ek@).len() == 1216);
                    }
                }
                Err(e)
            },
            Ok((client_id, keys)) => {
                let x25519_public_key: [u8; 32] = array_from_slice(&keys[0..32]);
                let ml_kem_ek: [u8; 1184] = array_from_slice(&keys[32..keys.len()]);
                let p = Self { client_id, x25519_public_key, ml_kem_ek };
                proof {
                    assert(x25519_public_key@ + ml_kem_ek@ =~= keys@);
                }
                Ok(p)
            },
        }
    }
}

/// Sent by the server in answer to the client hello: its ephemeral X25519
/// key, the ML-KEM ciphertext for the client, and a signature by the
/// server's pinned long-term identity over
/// `SHA-256(client_hello_bytes) || x25519_public_key || ml_kem_ciphertext`.
#[derive(Debug, Clone, PartialEq, Eq)]
pub struct ServerHelloPayload {
    pub server_id: String,
    /// Ephemeral X25519 public key.
    pub x25519_public_key: [u8; 32],
    /// ML-KEM-768 ciphertext the client decapsulates.
    pub ml_kem_ciphertext: [u8; 1088],
    /// ML-DSA-65 signature by the server's long-term identity key.
    pub signature: [u8; 3309],
}

impl ServerHelloPayload {
    /// Whether the payload can be encoded.
    pub open spec fn spec_fits(&self) -> bool {
        spec_string_fits(self.server_id@)
    }

    /// The wire form: the length-prefixed server id, the X25519 key, the
    /// ciphertext and the signature.
    pub open spec fn spec_encoding(&self) -> Seq<u8> {
        spec_string_then_fixed(
            self.server_id@,
            self.x25519_public_key@ + self.ml_kem_ciphertext@ + self.signature@,
        )
    }

    /// Encodes the payload; fails exactly when the id is too long.
    pub fn encode(&self) -> (r: Result<Vec<u8>, PayloadError>)
        ensures
            match r {
                Ok(v) => self.spec_fits() && v@ == self.spec_encoding(),
                Err(e) => !self.spec_fits() && e is InvalidInput,
            },
    {
        let mut out = encode_sized_string(self.server_id.as_str())?;
        out.extend_from_slice(self.x25519_public_key.as_slice());
        out.extend_from_slice(self.ml_kem_ciphertext.as_slice());
        out.extend_from_slice(self.signature.as_slice());
        assert(out@ =~= self.spec_encoding());
        Ok(out)
    }

    /// Decodes the payload; fails exactly when `bytes` is not the wire form
    /// of any server hello.
    pub fn decode(bytes: &[u8]) -> (r: Result<Self, PayloadError>)
        ensures
            match r {
                Ok(p) => p.spec_fits() && p.spec_encoding() == bytes@,
                Err(e) => e is InvalidData && forall|p: Self|
                    #[trigger] p.spec_fits() ==> p.spec_encoding() != bytes@,
            },
    {
        let fixed_len = 32 + ML_KEM_768_CT_SIZE + ML_DSA_65_SIG_SIZE;
        match decode_string_then_fixed(bytes, fixed_len, "server_hello") {
            Err(e) => {
                proof {
                    assert forall|p: Self| #[trigger] p.spec_fits() implies p.spec_encoding()
                        != bytes@ by {
                        assert((p.x25519_public_key@ + p.ml_kem_ciphertext@ + p.signature@).len()
                            == 4429);
                    }
                }
                Err(e)
            },
            Ok((server_id, keys)) => {
                let x25519_public_key: [u8; 32] = array_from_slice(&keys[0..32]);
                let ml_kem_ciphertext: [u8; 1088] = array_from_slice(&keys[32..1120]);
                let signature: [u8; 3309] = array_from_slice(&keys[1120..keys.len()]);
                let p = Self { server_id, x25519_public_key, ml_kem_ciphertext, signature };
                proof {
                    assert(x25519_public_key@ + ml_kem_ciphertext@ + signature@ =~= keys@);
                }
                Ok(p)
            },
        }
    }
}

/// Sent by the client to finish the handshake.
#[derive(Debug, Clone, PartialEq, Eq)]
pub struct ClientFinishPayload {
    pub ready: bool,
}

impl ClientFinishPayload {
    /// The wire form: one boolean byte.
    pub open spec fn spec_encoding(&self) -> Seq<u8> {
        seq![spec_bool_byte(self.ready)]
    }

    /// Encodes the payload.
    pub fn encode(&self) -> (v: Vec<u8>)
        ensures
            v@ == self.spec_encoding(),
    {
        let mut out: Vec<u8> = Vec::new();
        out.push(bool_byte(self.ready));
        assert(out@ =~= self.spec_encoding());
        out
    }

    /// Decodes the payload; fails exactly when `bytes` is not one canonical
    /// boolean byte.
    pub fn decode(bytes: &[u8]) -> (r: Result<Self, PayloadError>)
        ensures
            match r {
                Ok(p) => p.spec_encoding() == bytes@,
                Err(e) => e is InvalidData && forall|p: Self|
                    #[trigger] p.spec_encoding() != bytes@,
            },
    {
        if bytes.len() != 1 {
            return Err(invalid_data("client_finish payload must be exactly 1 byte"));
        }
        match decode_bool(bytes[0], "client_finish ready") {
            Err(e) => {
                proof {
                    assert forall|p: Self| #[trigger] p.spec_encoding() != bytes@ by {
                        if p.spec_encoding() == bytes@ {
                            assert(p.spec_encoding()[0] == spec_bool_byte(p.ready));
                        }
                    }
                }
                Err(e)
            },
            Ok(ready) => {
                let p = Self { ready };
                assert(p.spec_encoding() =~= bytes@);
                Ok(p)
            },
        }
    }
}

/// Sent by the server to accept the handshake.
#[derive(Debug, Clone, PartialEq, Eq)]
pub struct ServerAcceptPayload {
    pub accepted: bool,
}

impl ServerAcceptPayload {
    /// The wire form: one boolean byte.
    pub open spec fn spec_encoding(&self) -> Seq<u8> {
        seq![spec_bool_byte(self.accepted)]
    }

    /// Encodes the payload.
    pub fn encode(&self) -> (v: Vec<u8>)
        ensures
            v@ == self.spec_encoding(),
    {
        let mut out: Vec<u8> = Vec::new();
        out.push(bool_byte(self.accepted));
        assert(out@ =~= self.spec_encoding());
        out
    }

    /// Decodes the payload; fails exactly when `bytes` is not one canonical
    /// boolean byte.
    pub fn decode(bytes: &[u8]) -> (r: Result<Self, PayloadError>)
        ensures
            match r {
                Ok(p) => p.spec_encoding() == bytes@,
                Err(e) => e is InvalidData && forall|p: Self|
                    #[trigger] p.spec_encoding() != bytes@,
            },
    {
        if bytes.len() != 1 {
            return Err(invalid_data("server_accept payload must be exactly 1 byte"));
        }
        match decode_bool(bytes[0], "server_accept accepted") {
            Err(e) => {
                proof {
                    assert forall|p: Self| #[trigger] p.spec_encoding() != bytes@ by {
                        if p.spec_encoding() == bytes@ {
                            assert(p.spec_encoding()[0] == spec_bool_byte(p.accepted));
                        }
                    }
                }
                Err(e)
            },
            Ok(accepted) => {
                let p = Self { accepted };
                assert(p.spec_encoding() =~= bytes@);
                Ok(p)
            },
        }
    }
}

/// A client hello is determined by its wire form.
pub proof fn lemma_client_hello_encoding_injective(a: ClientHelloPayload, b: ClientHelloPayload)
    requires
        a.spec_fits(),
        b.spec_fits(),
        a.spec_encoding() == b.spec_encoding(),
    ensures
        a.client_id@ == b.client_id@,
        a.x25519_public_key == b.x25519_public_key,
        a.ml_kem_ek == b.ml_kem_ek,
{
    let ka = a.x25519_public_key@ + a.ml_kem_ek@;
    let kb = b.x25519_public_key@ + b.ml_kem_ek@;
    lemma_string_then_fixed_injective(a.client_id@, ka, b.client_id@, kb);
    assert(a.x25519_public_key@ =~= ka.subrange(0, 32));
    assert(b.x25519_public_key@ =~= kb.subrange(0, 32));
    assert(a.ml_kem_ek@ =~= ka.subrange(32, 1216));
    assert(b.ml_kem_ek@ =~= kb.subrange(32, 1216));
    assert(a.x25519_public_key =~= b.x25519_public_key);
    assert(a.ml_kem_ek =~= b.ml_kem_ek);
}

/// A server hello is determined by its wire form.
pub proof fn lemma_server_hello_encoding_injective(a: ServerHelloPayload, b: ServerHelloPayload)
    requires
        a.spec_fits(),
        b.spec_fits(),
        a.spec_encoding() == b.spec_encoding(),
    ensures
        a.server_id@ == b.server_id@,
        a.x25519_public_key == b.x25519_public_key,
        a.ml_kem_ciphertext == b.ml_kem_ciphertext,
        a.signature == b.signature,
{
    let ka = a.x25519_public_key@ + a.ml_kem_ciphertext@ + a.signature@;
    let kb = b.x25519_public_key@ + b.ml_kem_ciphertext@ + b.signature@;
    lemma_string_then_fixed_injective(a.server_id@, ka, b.server_id@, kb);
    assert(a.x25519_public_key@ =~= ka.subrange(0, 32));
    assert(b.x25519_public_key@ =~= kb.subrange(0, 32));
    assert(a.ml_kem_ciphertext@ =~= ka.subrange(32, 1120));
    assert(b.ml_kem_ciphertext@ =~= kb.subrange(32, 1120));
    assert(a.signature@ =~= ka.subrange(1120, 4429));
    assert(b.signature@ =~= kb.subrange(1120, 4429));
    assert(a.x25519_public_key =~= b.x25519_public_key);
    assert(a.ml_kem_ciphertext =~= b.ml_kem_ciphertext);
    assert(a.signature =~= b.signature);
}

} // verus!
