//! Layer 0: device identity authentication.
//!
//! The client proves control of a long-term ML-DSA-65 identity key by
//! signing `transcript_hash || nonce`, where the transcript hash covers the
//! exact hello bytes of this connection: a signature relayed from another
//! session fails against the verifier's own transcript. The server proves
//! its pinned long-term identity by signing
//! `SHA-256(client_hello_bytes) || server_x25519_public_key ||
//! server_ml_kem_ciphertext`. Distributing and rotating the pinned key is
//! left to the deploying application.
use crate::crypto::primitives::{
    mldsa65_sign, mldsa65_verify, mldsa65_verifying_key, sha256, spec_mldsa65_sign,
    spec_mldsa65_verify, spec_mldsa65_vk, spec_sha256, system_random,
};
use crate::error::ProtocolError;
use vstd::prelude::*;

verus! {

/// Size of the handshake transcript hash (SHA-256 output).
pub const TRANSCRIPT_LEN: usize = 32usize;

/// Size of the server-issued auth nonce.
pub const NONCE_LEN: usize = 32usize;

/// The message the client signs: transcript hash, then nonce.
pub open spec fn spec_auth_message(transcript_hash: Seq<u8>, nonce: Seq<u8>) -> Seq<u8> {
    transcript_hash + nonce
}

/// The message the server's identity key signs.
pub open spec fn spec_server_hello_message(
    client_hello_bytes: Seq<u8>,
    server_x25519_public_key: Seq<u8>,
    server_ml_kem_ciphertext: Seq<u8>,
) -> Seq<u8> {
    spec_sha256(client_hello_bytes) + server_x25519_public_key + server_ml_kem_ciphertext
}

/// The handshake transcript hash: SHA-256 over the exact client hello
/// bytes followed by the exact server hello bytes. Both sides compute it
/// from what they sent and received, so they agree when nothing was
/// altered in between.
pub fn compute_handshake_transcript(client_hello_bytes: &[u8], server_hello_bytes: &[u8]) -> (r: [u8;
    32])
    ensures
        r@ == spec_sha256(client_hello_bytes@ + server_hello_bytes@),
{
    let mut buf: Vec<u8> = Vec::new();
    buf.extend_from_slice(client_hello_bytes);
    buf.extend_from_slice(server_hello_bytes);
    assert(buf@ =~= client_hello_bytes@ + server_hello_bytes@);
    sha256(buf.as_slice())
}

/// The ML-DSA-65 identity of a 32-byte signing seed: the seed and its
/// encoded verifying key.
pub fn auth_identity_from_seed(signing_seed: [u8; 32]) -> (r: ([u8; 32], [u8; 1952]))
    ensures
        r.0@ == signing_seed@,
        r.1@ == spec_mldsa65_vk(signing_seed@),
{
    let verifying_key = mldsa65_verifying_key(&signing_seed);
    (signing_seed, verifying_key)
}

/// A fresh ML-DSA-65 identity: a random 32-byte signing seed and its
/// encoded verifying key. Used both for a device identity and for a
/// server's pinned identity; kept separate from the end-to-end identity.
pub fn generate_auth_identity() -> (r: Result<([u8; 32], [u8; 1952]), ProtocolError>)
    ensures
        match r {
            Ok((seed, vk)) => vk@ == spec_mldsa65_vk(seed@),
            Err(e) => e == ProtocolError::CryptoError,
        },
{
    let seed: [u8; 32] = match system_random::<32>() {
        Some(s) => s,
        None => {
            return Err(ProtocolError::CryptoError);
        },
    };
    Ok(auth_identity_from_seed(seed))
}

fn auth_message(transcript_hash: &[u8; 32], nonce: &[u8; 32]) -> (m: Vec<u8>)
    ensures
        m@ == spec_auth_message(transcript_hash@, nonce@),
{
    let mut message: Vec<u8> = Vec::with_capacity(TRANSCRIPT_LEN + NONCE_LEN);
    message.extend_from_slice(transcript_hash.as_slice());
    message.extend_from_slice(nonce.as_slice());
    assert(message@ =~= spec_auth_message(transcript_hash@, nonce@));
    message
}

/// Signs `transcript_hash || nonce` with the device identity; the value
/// for `AuthResponsePayload::signature`. A signature it returns verifies
/// under the seed's verifying key.
pub fn sign_auth_response(transcript_hash: &[u8; 32], nonce: &[u8; 32], signing_seed: &[u8; 32]) -> (r:
    Result<[u8; 3309], ProtocolError>)
    ensures
        match r {
            Ok(sig) => spec_mldsa65_sign(signing_seed@, spec_auth_message(transcript_hash@, nonce@))
                == Some(sig@) && spec_mldsa65_verify(
                spec_mldsa65_vk(signing_seed@),
                spec_auth_message(transcript_hash@, nonce@),
                sig@,
            ),
            Err(e) => e == ProtocolError::CryptoError && spec_mldsa65_sign(
                signing_seed@,
                spec_auth_message(transcript_hash@, nonce@),
            ) is None,
        },
{
    let message = auth_message(transcript_hash, nonce);
    match mldsa65_sign(signing_seed, message.as_slice()) {
        Some(sig) => Ok(sig),
        None => Err(ProtocolError::CryptoError),
    }
}

/// Checks an `AuthResponsePayload::signature` against the transcript hash
/// the verifier computed itself, the nonce it issued and the claimed key.
pub fn verify_auth_response(
    transcript_hash: &[u8; 32],
    nonce: &[u8; 32],
    verifying_key: &[u8; 1952],
    signature: &[u8; 3309],
) -> (r: Result<(), ProtocolError>)
    ensures
        r is Ok <==> spec_mldsa65_verify(
            verifying_key@,
            spec_auth_message(transcript_hash@, nonce@),
            signature@,
        ),
        r is Err ==> r == Err::<(), ProtocolError>(ProtocolError::CryptoError),
{
    let message = auth_message(transcript_hash, nonce);
    if mldsa65_verify(verifying_key, message.as_slice(), signature) {
        Ok(())
    } else {
        Err(ProtocolError::CryptoError)
    }
}

fn server_hello_message(
    client_hello_bytes: &[u8],
    server_x25519_public_key: &[u8; 32],
    server_ml_kem_ciphertext: &[u8; 1088],
) -> (m: Vec<u8>)
    ensures
        m@ == spec_server_hello_message(
            client_hello_bytes@,
            server_x25519_public_key@,
            server_ml_kem_ciphertext@,
        ),
{
    let client_hello_hash = sha256(client_hello_bytes);
    let mut message: Vec<u8> = Vec::new();
    message.extend_from_slice(client_hello_hash.as_slice());
    message.extend_from_slice(server_x25519_public_key.as_slice());
    message.extend_from_slice(server_ml_kem_ciphertext.as_slice());
    assert(message@ =~= spec_server_hello_message(
        client_hello_bytes@,
        server_x25519_public_key@,
        server_ml_kem_ciphertext@,
    ));
    message
}

/// Signs the server hello material with the server's long-term identity;
/// the value for `ServerHelloPayload::signature`. `client_hello_bytes`
/// must be the exact bytes received. A signature it returns verifies under
/// the seed's verifying key.
pub fn sign_server_hello(
    client_hello_bytes: &[u8],
    server_x25519_public_key: &[u8; 32],
    server_ml_kem_ciphertext: &[u8; 1088],
    signing_seed: &[u8; 32],
) -> (r: Result<[u8; 3309], ProtocolError>)
    ensures
        match r {
            Ok(sig) => spec_mldsa65_sign(
                signing_seed@,
                spec_server_hello_message(
                    client_hello_bytes@,
                    server_x25519_public_key@,
                    server_ml_kem_ciphertext@,
                ),
            ) == Some(sig@) && spec_mldsa65_verify(
                spec_mldsa65_vk(signing_seed@),
                spec_server_hello_message(
                    client_hello_bytes@,
                    server_x25519_public_key@,
                    server_ml_kem_ciphertext@,
                ),
                sig@,
            ),
            Err(e) => e == ProtocolError::CryptoError && spec_mldsa65_sign(
                signing_seed@,
                spec_server_hello_message(
                    client_hello_bytes@,
                    server_x25519_public_key@,
                    server_ml_kem_ciphertext@,
                ),
            ) is None,
        },
{
    let message = server_hello_message(
        client_hello_bytes,
        server_x25519_public_key,
        server_ml_kem_ciphertext,
    );
    match mldsa65_sign(signing_seed, message.as_slice()) {
        Some(sig) => Ok(sig),
        None => Err(ProtocolError::CryptoError),
    }
}

/// Checks `ServerHelloPayload::signature` against the client's own pinned
/// copy of the server's verifying key, for this handshake's exact client
/// hello bytes and the received server key material.
pub fn verify_server_hello(
    client_hello_bytes: &[u8],
    server_x25519_public_key: &[u8; 32],
    server_ml_kem_ciphertext: &[u8; 1088],
    pinned_verifying_key: &[u8; 1952],
    signature: &[u8; 3309],
) -> (r: Result<(), ProtocolError>)
    ensures
        r is Ok <==> spec_mldsa65_verify(
            pinned_verifying_key@,
            spec_server_hello_message(
                client_hello_bytes@,
                server_x25519_public_key@,
                server_ml_kem_ciphertext@,
            ),
            signature@,
        ),
        r is Err ==> r == Err::<(), ProtocolError>(ProtocolError::CryptoError),
{
    let message = server_hello_message(
        client_hello_bytes,
        server_x25519_public_key,
        server_ml_kem_ciphertext,
    );
    if mldsa65_verify(pinned_verifying_key, message.as_slice(), signature) {
        Ok(())
    } else {
        Err(ProtocolError::CryptoError)
    }
}

} // verus!
