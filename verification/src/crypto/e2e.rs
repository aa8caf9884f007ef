//! Layer 2: end-to-end encryption and signing.
//!
//! The server never holds keys for this layer; it forwards opaque blobs.
//! Per message, the sender makes an ephemeral X25519 key and encapsulates
//! to the recipient's long-term ML-KEM-768 key; HKDF-SHA256 over both
//! shared secrets, with the exchange's public material as context, gives
//! the AES-256-GCM content key. The whole blob is signed with the sender's
//! ML-DSA-65 key.
//!
//! Blob layout: sender ephemeral X25519 key (32), ML-KEM ciphertext
//! (1088), AES nonce (12), AES ciphertext and tag (plaintext + 16),
//! ML-DSA signature (3309).
use crate::crypto::primitives::{
    aes256gcm_open, aes256gcm_seal, hkdf_sha256, mldsa65_sign, mldsa65_verify,
    mldsa65_verifying_key, mlkem768_decapsulate, mlkem768_ek_from_seed, mlkem768_encapsulate,
    os_random_32, spec_aes256gcm_open, spec_aes256gcm_seal, spec_hkdf_sha256,
    spec_mldsa65_sign, spec_mldsa65_verify, spec_mldsa65_vk, spec_mlkem768_decapsulate,
    spec_mlkem768_ek, spec_mlkem768_ek_valid, spec_mlkem768_encapsulate, AES_GCM_MAX_INPUT, spec_x25519_public, spec_x25519_shared,
    system_random, wipe_key, x25519_public, x25519_shared,
};
use crate::error::ProtocolError;
use crate::payloads::common::array_from_slice;
use vstd::prelude::*;

verus! {

/// AES-GCM nonce length in bytes.
pub const NONCE_LEN: usize = 12usize;

/// AES-GCM tag length in bytes.
pub const GCM_TAG_LEN: usize = 16usize;

/// ML-DSA-65 signature size in bytes.
pub const ML_DSA_65_SIG_SIZE: usize = 3309usize;

/// ML-DSA-65 verifying key size in bytes.
pub const ML_DSA_65_VK_SIZE: usize = 1952usize;

/// All public key material of one end-to-end identity. Safe to
/// distribute.
#[derive(Debug, Clone, PartialEq, Eq)]
pub struct E2ePublicKey {
    /// Long-term X25519 public key.
    pub x25519_public: [u8; 32],
    /// ML-KEM-768 encapsulation key.
    pub ml_kem_ek: [u8; 1184],
    /// ML-DSA-65 verifying key.
    pub dsa_verifying_key: [u8; 1952],
}

impl E2ePublicKey {
    /// The three fields concatenated, in declaration order. Every field has
    /// a fixed length, so this is unambiguous.
    pub open spec fn spec_bytes(&self) -> Seq<u8> {
        self.x25519_public@ + self.ml_kem_ek@ + self.dsa_verifying_key@
    }
}

/// Offset where the ML-KEM ciphertext ends in a blob.
pub const ML_KEM_CT_END: usize = 1120usize;

/// Offset where the AES nonce ends (and the AES ciphertext starts).
pub const AES_NONCE_END: usize = 1132usize;

/// Length of a blob with an empty plaintext: the fixed fields, the GCM tag
/// and the signature.
pub const MIN_BLOB_LEN: usize = 4457usize;

/// HKDF label of the content key, `"chatix-e2e-content-v1"`.
pub const E2E_LABEL: [u8; 21] = [
    99u8, 104u8, 97u8, 116u8, 105u8, 120u8, 45u8, 101u8, 50u8, 101u8, 45u8, 99u8, 111u8, 110u8,
    116u8, 101u8, 110u8, 116u8, 45u8, 118u8, 49u8,
];

/// All secret key material of one end-to-end identity. Store securely;
/// never log or transmit.
pub struct E2eSecretKey {
    /// Long-term X25519 secret key.
    pub x25519_secret: [u8; 32],
    /// ML-KEM-768 decapsulation key seed.
    pub ml_kem_seed: [u8; 64],
    /// ML-DSA-65 signing key seed.
    pub dsa_signing_seed: [u8; 32],
}

impl E2eSecretKey {
    /// Overwrites all secret key material with zeros.
    pub fn zeroize(&mut self)
        ensures
            final(self).x25519_secret@ == Seq::new(32, |_i: int| 0u8),
            final(self).ml_kem_seed@ == Seq::new(64, |_i: int| 0u8),
            final(self).dsa_signing_seed@ == Seq::new(32, |_i: int| 0u8),
    {
        wipe_key(&mut self.x25519_secret);
        wipe_key(&mut self.ml_kem_seed);
        wipe_key(&mut self.dsa_signing_seed);
    }
}

/// Whether a public bundle is the one of a secret bundle.
pub open spec fn spec_public_matches(sk: &E2eSecretKey, pk: &E2ePublicKey) -> bool {
    &&& pk.x25519_public@ == spec_x25519_public(sk.x25519_secret@)
    &&& pk.ml_kem_ek@ == spec_mlkem768_ek(sk.ml_kem_seed@)
    &&& pk.dsa_verifying_key@ == spec_mldsa65_vk(sk.dsa_signing_seed@)
}

/// The context bound into a content key: the sender's ephemeral X25519
/// key, the recipient's X25519 key and the ML-KEM ciphertext.
pub open spec fn spec_e2e_context(
    sender_ephemeral_public: Seq<u8>,
    recipient_x25519_public: Seq<u8>,
    ml_kem_ciphertext: Seq<u8>,
) -> Seq<u8> {
    sender_ephemeral_public + recipient_x25519_public + ml_kem_ciphertext
}

/// The content key of a message.
pub open spec fn spec_content_key(
    x25519_shared: Seq<u8>,
    kem_shared: Seq<u8>,
    context: Seq<u8>,
) -> Seq<u8> {
    spec_hkdf_sha256(x25519_shared + kem_shared, context + E2E_LABEL@)
}

/// The sender's ephemeral X25519 key of a blob.
pub open spec fn spec_blob_ephemeral(blob: Seq<u8>) -> Seq<u8> {
    blob.subrange(0, 32)
}

/// The ML-KEM ciphertext of a blob.
pub open spec fn spec_blob_kem_ciphertext(blob: Seq<u8>) -> Seq<u8> {
    blob.subrange(32, ML_KEM_CT_END as int)
}

/// The AES nonce of a blob.
pub open spec fn spec_blob_nonce(blob: Seq<u8>) -> Seq<u8> {
    blob.subrange(ML_KEM_CT_END as int, AES_NONCE_END as int)
}

/// The signed part of a blob: everything but the signature.
pub open spec fn spec_blob_signed(blob: Seq<u8>) -> Seq<u8> {
    blob.subrange(0, blob.len() - 3309)
}

/// The AES ciphertext and tag of a blob.
pub open spec fn spec_blob_sealed(blob: Seq<u8>) -> Seq<u8> {
    blob.subrange(AES_NONCE_END as int, blob.len() - 3309)
}

/// The signature of a blob.
pub open spec fn spec_blob_signature(blob: Seq<u8>) -> Seq<u8> {
    blob.subrange(blob.len() - 3309, blob.len() as int)
}

/// What a recipient gets from a blob: refused when it is too short or the
/// signature does not verify under the sender's key (checked before any
/// other cryptography), else the AES-GCM opening under the content key
/// the recipient derives, refused when it does not authenticate.
pub open spec fn spec_open_blob(
    blob: Seq<u8>,
    recipient_x25519_secret: Seq<u8>,
    recipient_ml_kem_seed: Seq<u8>,
    sender_verifying_key: Seq<u8>,
) -> Result<Seq<u8>, ProtocolError> {
    if blob.len() < MIN_BLOB_LEN {
        Err(ProtocolError::CryptoError)
    } else if !spec_mldsa65_verify(
        sender_verifying_key,
        spec_blob_signed(blob),
        spec_blob_signature(blob),
    ) {
        Err(ProtocolError::CryptoError)
    } else {
        let key = spec_content_key(
            spec_x25519_shared(recipient_x25519_secret, spec_blob_ephemeral(blob)),
            spec_mlkem768_decapsulate(recipient_ml_kem_seed, spec_blob_kem_ciphertext(blob)),
            spec_e2e_context(
                spec_blob_ephemeral(blob),
                spec_x25519_public(recipient_x25519_secret),
                spec_blob_kem_ciphertext(blob),
            ),
        );
        match spec_aes256gcm_open(key, spec_blob_nonce(blob), Seq::empty(), spec_blob_sealed(blob)) {
            Some(p) => Ok(p),
            None => Err(ProtocolError::CryptoError),
        }
    }
}

/// `blob` carries `plaintext` for the recipient X25519 key, signed with the
/// sender's seed, made with ephemeral secret `ephemeral` and ML-KEM shared
/// key `kem_shared`: the ephemeral key agrees with any recipient secret,
/// the sealed part opens to the plaintext under the content key, and the
/// signature is the sender's and verifies.
pub open spec fn spec_blob_made_with(
    blob: Seq<u8>,
    plaintext: Seq<u8>,
    recipient_x25519_public: Seq<u8>,
    sender_signing_seed: Seq<u8>,
    ephemeral: Seq<u8>,
    kem_shared: Seq<u8>,
) -> bool {
    let key = spec_content_key(
        spec_x25519_shared(ephemeral, recipient_x25519_public),
        kem_shared,
        spec_e2e_context(
            spec_blob_ephemeral(blob),
            recipient_x25519_public,
            spec_blob_kem_ciphertext(blob),
        ),
    );
    &&& blob.len() == MIN_BLOB_LEN + plaintext.len()
    &&& ephemeral.len() == 32
    &&& spec_blob_ephemeral(blob) == spec_x25519_public(ephemeral)
    &&& forall|other: Seq<u8>|
        other.len() == 32 ==> #[trigger] spec_x25519_shared(other, spec_blob_ephemeral(blob))
            == spec_x25519_shared(ephemeral, spec_x25519_public(other))
    &&& spec_blob_sealed(blob) == spec_aes256gcm_seal(key, spec_blob_nonce(blob), Seq::empty(), plaintext)
    &&& spec_aes256gcm_open(key, spec_blob_nonce(blob), Seq::empty(), spec_blob_sealed(blob))
        == Some(plaintext)
    &&& spec_mldsa65_sign(sender_signing_seed, spec_blob_signed(blob)) == Some(
        spec_blob_signature(blob),
    )
    &&& spec_mldsa65_verify(
        spec_mldsa65_vk(sender_signing_seed),
        spec_blob_signed(blob),
        spec_blob_signature(blob),
    )
}

/// `blob` is what `seal_blob_with` makes of `plaintext` for the recipient's
/// X25519 key and ML-KEM encapsulation key, signed with the sender's seed,
/// for some ephemeral secret, ML-KEM encapsulation randomness and nonce:
/// its ciphertext is an encapsulation to the recipient's key, and its
/// content key uses that encapsulation's shared key.
pub open spec fn spec_sealed_for(
    blob: Seq<u8>,
    plaintext: Seq<u8>,
    recipient_x25519_public: Seq<u8>,
    recipient_ml_kem_ek: Seq<u8>,
    sender_signing_seed: Seq<u8>,
) -> bool {
    exists|ephemeral: Seq<u8>, kem_randomness: Seq<u8>, nonce: Seq<u8>|
        #[trigger] spec_sealed_blob(
            plaintext,
            recipient_x25519_public,
            recipient_ml_kem_ek,
            sender_signing_seed,
            ephemeral,
            kem_randomness,
            nonce,
        ) == Some(blob) && spec_blob_kem_ciphertext(blob) == spec_mlkem768_encapsulate(
            recipient_ml_kem_ek,
            kem_randomness,
        ).0 && spec_blob_made_with(
            blob,
            plaintext,
            recipient_x25519_public,
            sender_signing_seed,
            ephemeral,
            spec_mlkem768_encapsulate(recipient_ml_kem_ek, kem_randomness).1,
        )
}

/// The end-to-end identity of the given X25519 secret, ML-KEM-768 seed and
/// ML-DSA-65 signing seed: the secrets as given and their public keys.
pub fn e2e_keypair_from_seeds(
    x25519_secret: [u8; 32],
    ml_kem_seed: [u8; 64],
    dsa_signing_seed: [u8; 32],
) -> (r: (E2eSecretKey, E2ePublicKey))
    ensures
        r.0.x25519_secret@ == x25519_secret@,
        r.0.ml_kem_seed@ == ml_kem_seed@,
        r.0.dsa_signing_seed@ == dsa_signing_seed@,
        spec_public_matches(&r.0, &r.1),
{
    let x25519_public = x25519_public(&x25519_secret);
    let ml_kem_ek = mlkem768_ek_from_seed(&ml_kem_seed);
    let dsa_verifying_key = mldsa65_verifying_key(&dsa_signing_seed);
    (
        E2eSecretKey { x25519_secret, ml_kem_seed, dsa_signing_seed },
        E2ePublicKey { x25519_public, ml_kem_ek, dsa_verifying_key },
    )
}

/// A fresh end-to-end identity: random X25519, ML-KEM-768 and ML-DSA-65
/// secrets and their public keys. Fails only when a random source fails.
pub fn generate_e2e_keypair() -> (r: Result<(E2eSecretKey, E2ePublicKey), ProtocolError>)
    ensures
        match r {
            Ok((sk, pk)) => spec_public_matches(&sk, &pk),
            Err(e) => e == ProtocolError::CryptoError,
        },
{
    let x25519_secret = match os_random_32() {
        Some(s) => s,
        None => {
            return Err(ProtocolError::CryptoError);
        },
    };
    let ml_kem_seed: [u8; 64] = match system_random::<64>() {
        Some(s) => s,
        None => {
            return Err(ProtocolError::CryptoError);
        },
    };
    let dsa_signing_seed: [u8; 32] = match system_random::<32>() {
        Some(s) => s,
        None => {
            return Err(ProtocolError::CryptoError);
        },
    };
    Ok(e2e_keypair_from_seeds(x25519_secret, ml_kem_seed, dsa_signing_seed))
}

fn e2e_context(
    sender_ephemeral_public: &[u8; 32],
    recipient_x25519_public: &[u8; 32],
    ml_kem_ciphertext: &[u8; 1088],
) -> (c: Vec<u8>)
    ensures
        c@ == spec_e2e_context(
            sender_ephemeral_public@,
            recipient_x25519_public@,
            ml_kem_ciphertext@,
        ) + E2E_LABEL@,
{
    let mut c: Vec<u8> = Vec::new();
    c.extend_from_slice(sender_ephemeral_public.as_slice());
    c.extend_from_slice(recipient_x25519_public.as_slice());
    c.extend_from_slice(ml_kem_ciphertext.as_slice());
    c.extend_from_slice(E2E_LABEL.as_slice());
    assert(c@ =~= spec_e2e_context(
        sender_ephemeral_public@,
        recipient_x25519_public@,
        ml_kem_ciphertext@,
    ) + E2E_LABEL@);
    c
}

fn derive_e2e_key(x25519_shared: &[u8; 32], kem_shared: &[u8; 32], info: &[u8]) -> (r: Result<
    [u8; 32],
    ProtocolError,
>)
    ensures
        r matches Ok(k) && k@ == spec_hkdf_sha256(x25519_shared@ + kem_shared@, info@),
{
    let mut ikm: Vec<u8> = Vec::with_capacity(64);
    ikm.extend_from_slice(x25519_shared.as_slice());
    ikm.extend_from_slice(kem_shared.as_slice());
    assert(ikm@ =~= x25519_shared@ + kem_shared@);
    let key = match hkdf_sha256(ikm.as_slice(), info) {
        Some(k) => k,
        None => {
            return Err(ProtocolError::CryptoError);
        },
    };
    crate::crypto::primitives::wipe_vec(&mut ikm);
    Ok(key)
}

/// A fresh random AES-GCM nonce; fails only when the random source does.
fn random_nonce() -> (r: Result<[u8; 12], ProtocolError>)
    ensures
        r matches Err(e) ==> e == ProtocolError::CryptoError,
{
    match system_random::<12>() {
        Some(n) => Ok(n),
        None => Err(ProtocolError::CryptoError),
    }
}

/// The blob sealed for `plaintext` with the given ephemeral X25519 secret,
/// ML-KEM encapsulation randomness and AES nonce: the ephemeral public key,
/// the ML-KEM ciphertext, the nonce and the AES-256-GCM sealing under the
/// content key, followed by the sender's signature over all of that;
/// `None` when signing gives up.
pub open spec fn spec_sealed_blob(
    plaintext: Seq<u8>,
    recipient_x25519_public: Seq<u8>,
    recipient_ml_kem_ek: Seq<u8>,
    sender_signing_seed: Seq<u8>,
    ephemeral: Seq<u8>,
    kem_randomness: Seq<u8>,
    nonce: Seq<u8>,
) -> Option<Seq<u8>> {
    let encapsulation = spec_mlkem768_encapsulate(recipient_ml_kem_ek, kem_randomness);
    let ephemeral_public = spec_x25519_public(ephemeral);
    let key = spec_content_key(
        spec_x25519_shared(ephemeral, recipient_x25519_public),
        encapsulation.1,
        spec_e2e_context(ephemeral_public, recipient_x25519_public, encapsulation.0),
    );
    let signed = ephemeral_public + encapsulation.0 + nonce + spec_aes256gcm_seal(
        key,
        nonce,
        Seq::empty(),
        plaintext,
    );
    match spec_mldsa65_sign(sender_signing_seed, signed) {
        Some(signature) => Some(signed + signature),
        None => None,
    }
}

/// Seals `plaintext` for a recipient with the given ephemeral X25519
/// secret, ML-KEM encapsulation randomness and AES nonce, and signs the
/// blob with the sender's seed. Fails when the recipient's encapsulation
/// key is invalid or signing gives up; for a plaintext within the AES-GCM
/// input limit, nothing else.
pub fn seal_blob_with(
    plaintext: &[u8],
    recipient_x25519_pk: &[u8; 32],
    recipient_ml_kem_ek: &[u8; 1184],
    sender_signing_seed: &[u8; 32],
    ephemeral: &[u8; 32],
    kem_randomness: &[u8; 32],
    nonce: &[u8; 12],
) -> (r: Result<Vec<u8>, ProtocolError>)
    ensures
        match r {
            Ok(blob) => {
                &&& spec_sealed_blob(
                    plaintext@,
                    recipient_x25519_pk@,
                    recipient_ml_kem_ek@,
                    sender_signing_seed@,
                    ephemeral@,
                    kem_randomness@,
                    nonce@,
                ) == Some(blob@)
                &&& spec_blob_kem_ciphertext(blob@) == spec_mlkem768_encapsulate(
                    recipient_ml_kem_ek@,
                    kem_randomness@,
                ).0
                &&& spec_blob_made_with(
                    blob@,
                    plaintext@,
                    recipient_x25519_pk@,
                    sender_signing_seed@,
                    ephemeral@,
                    spec_mlkem768_encapsulate(recipient_ml_kem_ek@, kem_randomness@).1,
                )
            },
            Err(e) => e == ProtocolError::CryptoError,
        },
        !spec_mlkem768_ek_valid(recipient_ml_kem_ek@) ==> r is Err,
        spec_mlkem768_ek_valid(recipient_ml_kem_ek@) && plaintext@.len() <= AES_GCM_MAX_INPUT ==> (
        r is Ok <==> spec_sealed_blob(
            plaintext@,
            recipient_x25519_pk@,
            recipient_ml_kem_ek@,
            sender_signing_seed@,
            ephemeral@,
            kem_randomness@,
            nonce@,
        ) is Some),
{
    let sender_x25519_pk = x25519_public(ephemeral);
    let x25519_shared = x25519_shared(ephemeral, recipient_x25519_pk);
    let (ml_kem_ct, kem_shared) = match mlkem768_encapsulate(recipient_ml_kem_ek, kem_randomness) {
        Some(x) => x,
        None => {
            return Err(ProtocolError::CryptoError);
        },
    };
    let info = e2e_context(&sender_x25519_pk, recipient_x25519_pk, &ml_kem_ct);
    let mut content_key = match derive_e2e_key(&x25519_shared, &kem_shared, info.as_slice()) {
        Ok(k) => k,
        Err(e) => {
            return Err(e);
        },
    };
    let mut pt: Vec<u8> = Vec::new();
    pt.extend_from_slice(plaintext);
    let no_aad: [u8; 0] = [];
    assert(no_aad@ =~= Seq::<u8>::empty());
    assert(pt@ =~= plaintext@);
    let ciphertext = match aes256gcm_seal(&content_key, nonce, no_aad.as_slice(), pt) {
        Some(c) => c,
        None => {
            return Err(ProtocolError::CryptoError);
        },
    };
    wipe_key(&mut content_key);
    let mut blob: Vec<u8> = Vec::new();
    blob.extend_from_slice(sender_x25519_pk.as_slice());
    blob.extend_from_slice(ml_kem_ct.as_slice());
    blob.extend_from_slice(nonce.as_slice());
    blob.extend_from_slice(ciphertext.as_slice());
    let ghost signed = blob@;
    assert(signed =~= sender_x25519_pk@ + ml_kem_ct@ + nonce@ + ciphertext@);
    let signature = match mldsa65_sign(sender_signing_seed, blob.as_slice()) {
        Some(s) => s,
        None => {
            return Err(ProtocolError::CryptoError);
        },
    };
    blob.extend_from_slice(signature.as_slice());
    proof {
        let b = blob@;
        assert(b =~= signed + signature@);
        assert(spec_blob_ephemeral(b) =~= sender_x25519_pk@);
        assert(spec_blob_kem_ciphertext(b) =~= ml_kem_ct@);
        assert(spec_blob_nonce(b) =~= nonce@);
        assert(spec_blob_sealed(b) =~= ciphertext@);
        assert(spec_blob_signed(b) =~= signed);
        assert(spec_blob_signature(b) =~= signature@);
    }
    Ok(blob)
}

/// Encrypts `plaintext` for a recipient and signs the blob with the
/// sender's seed, with a fresh ephemeral X25519 secret, ML-KEM
/// encapsulation randomness and AES nonce (see `seal_blob_with`). The blob
/// is `MIN_BLOB_LEN + plaintext.len()` bytes and opens to `plaintext` for
/// the holder of the recipient's secrets whenever their ML-KEM
/// decapsulation recovers the encapsulated key. Fails when the recipient's
/// encapsulation key is invalid, or when a random source or signing fails.
pub fn encrypt_and_sign(
    plaintext: &[u8],
    recipient_x25519_pk: &[u8; 32],
    recipient_ml_kem_ek: &[u8; 1184],
    sender_signing_seed: &[u8; 32],
) -> (r: Result<Vec<u8>, ProtocolError>)
    ensures
        match r {
            Ok(blob) => spec_sealed_for(
                blob@,
                plaintext@,
                recipient_x25519_pk@,
                recipient_ml_kem_ek@,
                sender_signing_seed@,
            ),
            Err(e) => e == ProtocolError::CryptoError,
        },
        !spec_mlkem768_ek_valid(recipient_ml_kem_ek@) ==> r is Err,
{
    let ephemeral = match os_random_32() {
        Some(s) => s,
        None => {
            return Err(ProtocolError::CryptoError);
        },
    };
    let kem_randomness: [u8; 32] = match system_random::<32>() {
        Some(m) => m,
        None => {
            return Err(ProtocolError::CryptoError);
        },
    };
    let nonce = match random_nonce() {
        Ok(n) => n,
        Err(e) => {
            return Err(e);
        },
    };
    let r = seal_blob_with(
        plaintext,
        recipient_x25519_pk,
        recipient_ml_kem_ek,
        sender_signing_seed,
        &ephemeral,
        &kem_randomness,
        &nonce,
    );
    proof {
        if r is Ok {
            let blob = r->Ok_0;
            assert(spec_sealed_blob(
                plaintext@,
                recipient_x25519_pk@,
                recipient_ml_kem_ek@,
                sender_signing_seed@,
                ephemeral@,
                kem_randomness@,
                nonce@,
            ) == Some(blob@));
        }
    }
    r
}

/// Verifies the sender's signature, then derives the content key and
/// decrypts. Every failure is `CryptoError`.
pub fn verify_and_decrypt(
    blob: &[u8],
    recipient_x25519_sk: &[u8; 32],
    recipient_ml_kem_seed: &[u8; 64],
    sender_verifying_key: &[u8; 1952],
) -> (r: Result<Vec<u8>, ProtocolError>)
    ensures
        match r {
            Ok(p) => spec_open_blob(
                blob@,
                recipient_x25519_sk@,
                recipient_ml_kem_seed@,
                sender_verifying_key@,
            ) == Ok::<Seq<u8>, ProtocolError>(p@),
            Err(e) => spec_open_blob(
                blob@,
                recipient_x25519_sk@,
                recipient_ml_kem_seed@,
                sender_verifying_key@,
            ) == Err::<Seq<u8>, ProtocolError>(e),
        },
{
    if blob.len() < MIN_BLOB_LEN {
        return Err(ProtocolError::CryptoError);
    }
    let sig_start = blob.len() - ML_DSA_65_SIG_SIZE;
    let signed_part = &blob[0..sig_start];
    let sig_bytes: [u8; 3309] = array_from_slice(&blob[sig_start..blob.len()]);
    proof {
        assert(signed_part@ =~= spec_blob_signed(blob@));
        assert(sig_bytes@ =~= spec_blob_signature(blob@));
    }
    if !mldsa65_verify(sender_verifying_key, signed_part, &sig_bytes) {
        return Err(ProtocolError::CryptoError);
    }
    let sender_x25519_pk: [u8; 32] = array_from_slice(&blob[0..32]);
    let ml_kem_ct: [u8; 1088] = array_from_slice(&blob[32..ML_KEM_CT_END]);
    let aes_nonce: [u8; 12] = array_from_slice(&blob[ML_KEM_CT_END..AES_NONCE_END]);
    let mut aes_ct: Vec<u8> = Vec::new();
    aes_ct.extend_from_slice(&blob[AES_NONCE_END..sig_start]);
    let x25519_shared = x25519_shared(recipient_x25519_sk, &sender_x25519_pk);
    let kem_shared = mlkem768_decapsulate(recipient_ml_kem_seed, &ml_kem_ct);
    let recipient_x25519_pk = x25519_public(recipient_x25519_sk);
    let info = e2e_context(&sender_x25519_pk, &recipient_x25519_pk, &ml_kem_ct);
    let mut content_key = match derive_e2e_key(&x25519_shared, &kem_shared, info.as_slice()) {
        Ok(k) => k,
        Err(e) => {
            return Err(e);
        },
    };
    proof {
        assert(sender_x25519_pk@ =~= spec_blob_ephemeral(blob@));
        assert(ml_kem_ct@ =~= spec_blob_kem_ciphertext(blob@));
        assert(aes_nonce@ =~= spec_blob_nonce(blob@));
        assert(aes_ct@ =~= spec_blob_sealed(blob@));
    }
    let no_aad: [u8; 0] = [];
    assert(no_aad@ =~= Seq::<u8>::empty());
    let opened = aes256gcm_open(&content_key, &aes_nonce, no_aad.as_slice(), aes_ct);
    wipe_key(&mut content_key);
    match opened {
        Some(p) => Ok(p),
        None => Err(ProtocolError::CryptoError),
    }
}

/// End-to-end round trip: a blob made for a recipient opens, for the
/// holder of the recipient's X25519 secret and an ML-KEM seed whose
/// decapsulation of the blob's ciphertext recovers the sender's shared
/// key, to the original plaintext under the sender's verifying key.
pub proof fn lemma_e2e_roundtrip(
    blob: Seq<u8>,
    plaintext: Seq<u8>,
    recipient_x25519_secret: Seq<u8>,
    recipient_ml_kem_seed: Seq<u8>,
    sender_signing_seed: Seq<u8>,
    ephemeral: Seq<u8>,
    kem_shared: Seq<u8>,
)
    requires
        recipient_x25519_secret.len() == 32,
        spec_blob_made_with(
            blob,
            plaintext,
            spec_x25519_public(recipient_x25519_secret),
            sender_signing_seed,
            ephemeral,
            kem_shared,
        ),
        spec_mlkem768_decapsulate(recipient_ml_kem_seed, spec_blob_kem_ciphertext(blob))
            == kem_shared,
    ensures
        spec_open_blob(
            blob,
            recipient_x25519_secret,
            recipient_ml_kem_seed,
            spec_mldsa65_vk(sender_signing_seed),
        ) == Ok::<Seq<u8>, ProtocolError>(plaintext),
{
    assert(spec_x25519_shared(recipient_x25519_secret, spec_blob_ephemeral(blob))
        == spec_x25519_shared(ephemeral, spec_x25519_public(recipient_x25519_secret)));
}

} // verus!
