//! The cryptographic primitives this crate builds on, each a thin wrapper
//! over one operation of an outside crate: SHA-256 (`sha2`), HKDF-SHA256
//! (`hkdf`), X25519 (`x25519-dalek`), ML-KEM-768 (`ml-kem`), ML-DSA-65
//! (`ml-dsa`), AES-256-GCM and the system random source (`ring`), the OS
//! random source (`rand_core`) and memory wiping (`zeroize`).
//!
//! Nothing here is proved: each wrapper's contract is what the outside
//! crate's source shows of the call. Deterministic results are named by
//! the `spec_*` functions below, over byte sequences.
use ml_dsa::{Keypair, Signer, Verifier};
use ml_kem::{Decapsulate, Encapsulate, KeyExport};
use rand_core::RngCore;
use ring::rand::SecureRandom;
use sha2::Digest;
use vstd::prelude::*;
use zeroize::Zeroize;

verus! {

/// The longest input `ring`'s AES-256-GCM seals: 2^36 - 32 bytes
/// (`MAX_IN_OUT_LEN`).
pub const AES_GCM_MAX_INPUT: u64 = 68719476704u64;

/// SHA-256 of `data`.
pub uninterp spec fn spec_sha256(data: Seq<u8>) -> Seq<u8>;

/// The first 32 bytes HKDF-SHA256 expands from `ikm` (no salt) under
/// `info`.
pub uninterp spec fn spec_hkdf_sha256(ikm: Seq<u8>, info: Seq<u8>) -> Seq<u8>;

/// The X25519 public key of a 32-byte secret.
pub uninterp spec fn spec_x25519_public(secret: Seq<u8>) -> Seq<u8>;

/// The X25519 shared secret of a 32-byte secret and a 32-byte public key.
pub uninterp spec fn spec_x25519_shared(secret: Seq<u8>, public: Seq<u8>) -> Seq<u8>;

/// The ML-KEM-768 encapsulation key of the decapsulation key derived from
/// a 64-byte seed.
pub uninterp spec fn spec_mlkem768_ek(seed: Seq<u8>) -> Seq<u8>;

/// Whether 1184 bytes are a valid ML-KEM-768 encapsulation key.
pub uninterp spec fn spec_mlkem768_ek_valid(ek: Seq<u8>) -> bool;

/// The ciphertext and shared key of an ML-KEM-768 encapsulation to the
/// encapsulation key `ek` with the 32 random bytes `m`.
pub uninterp spec fn spec_mlkem768_encapsulate(ek: Seq<u8>, m: Seq<u8>) -> (Seq<u8>, Seq<u8>);

/// The shared key that decapsulating `ct` with the key derived from a
/// 64-byte seed yields.
pub uninterp spec fn spec_mlkem768_decapsulate(seed: Seq<u8>, ct: Seq<u8>) -> Seq<u8>;

/// The encoded ML-DSA-65 verifying key of the signing key derived from a
/// 32-byte seed.
pub uninterp spec fn spec_mldsa65_vk(seed: Seq<u8>) -> Seq<u8>;

/// The deterministic ML-DSA-65 signature (empty context) of `msg` by the
/// signing key derived from a 32-byte seed; `None` when signing gives up.
pub uninterp spec fn spec_mldsa65_sign(seed: Seq<u8>, msg: Seq<u8>) -> Option<Seq<u8>>;

/// Whether `sig` decodes and verifies as an ML-DSA-65 signature (empty
/// context) of `msg` under the encoded verifying key `vk`.
pub uninterp spec fn spec_mldsa65_verify(vk: Seq<u8>, msg: Seq<u8>, sig: Seq<u8>) -> bool;

/// The AES-256-GCM ciphertext with appended tag of `plaintext`.
pub uninterp spec fn spec_aes256gcm_seal(
    key: Seq<u8>,
    nonce: Seq<u8>,
    aad: Seq<u8>,
    plaintext: Seq<u8>,
) -> Seq<u8>;

/// The AES-256-GCM plaintext of a ciphertext with appended tag, or `None`
/// when the tag does not verify.
pub uninterp spec fn spec_aes256gcm_open(
    key: Seq<u8>,
    nonce: Seq<u8>,
    aad: Seq<u8>,
    ciphertext: Seq<u8>,
) -> Option<Seq<u8>>;

/// `sha2::Sha256::digest`: the SHA-256 hash of `data`.
#[verifier::external_body]
pub(crate) fn sha256(data: &[u8]) -> (r: [u8; 32])
    ensures
        r@ == spec_sha256(data@),
{
    sha2::Sha256::digest(data).into()
}

/// `hkdf::Hkdf::<Sha256>::new(None, ikm)` then `expand(info, ..)` into 32
/// bytes. The crate's source refuses only outputs longer than 255 hash
/// blocks, so this always succeeds.
#[verifier::external_body]
pub(crate) fn hkdf_sha256(ikm: &[u8], info: &[u8]) -> (r: Option<[u8; 32]>)
    ensures
        r is Some,
        r matches Some(k) ==> k@ == spec_hkdf_sha256(ikm@, info@),
{
    let hk = hkdf::Hkdf::<sha2::Sha256>::new(None, ikm);
    let mut okm = [0u8; 32];
    hk.expand(info, &mut okm).ok().map(|_| okm)
}

/// `x25519_dalek::PublicKey::from(&StaticSecret::from(secret))`: the
/// public key of a secret. Both key agreements of two secrets agree:
/// combining any other secret with this public key gives what combining
/// this secret with the other secret's public key gives.
#[verifier::external_body]
pub(crate) fn x25519_public(secret: &[u8; 32]) -> (r: [u8; 32])
    ensures
        r@ == spec_x25519_public(secret@),
        forall|other: Seq<u8>|
            other.len() == 32 ==> #[trigger] spec_x25519_shared(other, r@) == spec_x25519_shared(
                secret@,
                spec_x25519_public(other),
            ),
{
    let s = x25519_dalek::StaticSecret::from(*secret);
    x25519_dalek::PublicKey::from(&s).to_bytes()
}

/// `StaticSecret::from(secret).diffie_hellman(&PublicKey::from(public))`:
/// the X25519 shared secret.
#[verifier::external_body]
pub(crate) fn x25519_shared(secret: &[u8; 32], public: &[u8; 32]) -> (r: [u8; 32])
    ensures
        r@ == spec_x25519_shared(secret@, public@),
{
    let s = x25519_dalek::StaticSecret::from(*secret);
    s.diffie_hellman(&x25519_dalek::PublicKey::from(*public)).to_bytes()
}

/// `DecapsulationKey768::from_seed(seed).encapsulation_key().to_bytes()`:
/// the encapsulation key of a seed, which is a valid one.
#[verifier::external_body]
pub(crate) fn mlkem768_ek_from_seed(seed: &[u8; 64]) -> (r: [u8; 1184])
    ensures
        r@ == spec_mlkem768_ek(seed@),
        spec_mlkem768_ek_valid(r@),
{
    let dk = ml_kem::DecapsulationKey768::from_seed(ml_kem::Seed::from(*seed));
    dk.encapsulation_key().to_bytes().into()
}

/// `EncapsulationKey768::new(ek)` then `encapsulate_deterministic(m)`:
/// the ciphertext and shared key that encapsulating to `ek` with the 32
/// random bytes `m` gives, or `None` when `ek` fails the FIPS 203
/// encapsulation key check.
#[verifier::external_body]
pub(crate) fn mlkem768_encapsulate(ek: &[u8; 1184], m: &[u8; 32]) -> (r: Option<
    ([u8; 1088], [u8; 32]),
>)
    ensures
        r is Some <==> spec_mlkem768_ek_valid(ek@),
        r matches Some((ct, ss)) ==> (ct@, ss@) == spec_mlkem768_encapsulate(ek@, m@),
{
    let key = ml_kem::EncapsulationKey768::new(&ml_kem::array::Array::from(*ek)).ok()?;
    let (ct, ss) = key.encapsulate_deterministic(&ml_kem::array::Array::from(*m));
    Some((ct.into(), ss.into()))
}

/// `DecapsulationKey768::from_seed(seed).decapsulate(ct)`: the shared key
/// of a ciphertext (implicit rejection yields a pseudo-random key for a
/// ciphertext not made for this key).
#[verifier::external_body]
pub(crate) fn mlkem768_decapsulate(seed: &[u8; 64], ct: &[u8; 1088]) -> (r: [u8; 32])
    ensures
        r@ == spec_mlkem768_decapsulate(seed@, ct@),
{
    let dk = ml_kem::DecapsulationKey768::from_seed(ml_kem::Seed::from(*seed));
    let ct = ml_kem::Ciphertext::<ml_kem::MlKem768>::from(*ct);
    dk.decapsulate(&ct).into()
}

/// `SigningKey::<MlDsa65>::from_seed(seed).verifying_key().encode()`: the
/// encoded verifying key of a seed.
#[verifier::external_body]
pub(crate) fn mldsa65_verifying_key(seed: &[u8; 32]) -> (r: [u8; 1952])
    ensures
        r@ == spec_mldsa65_vk(seed@),
{
    let sk = ml_dsa::SigningKey::<ml_dsa::MlDsa65>::from_seed(&ml_dsa::Seed::from(*seed));
    sk.verifying_key().encode().into()
}

/// `SigningKey::<MlDsa65>::from_seed(seed).try_sign(msg)` then `encode()`:
/// the deterministic signature of `msg`. A signature it produces verifies
/// under the seed's verifying key.
#[verifier::external_body]
pub(crate) fn mldsa65_sign(seed: &[u8; 32], msg: &[u8]) -> (r: Option<[u8; 3309]>)
    ensures
        r is Some <==> spec_mldsa65_sign(seed@, msg@) is Some,
        r matches Some(sig) ==> spec_mldsa65_sign(seed@, msg@) == Some(sig@)
            && spec_mldsa65_verify(spec_mldsa65_vk(seed@), msg@, sig@),
{
    let sk = ml_dsa::SigningKey::<ml_dsa::MlDsa65>::from_seed(&ml_dsa::Seed::from(*seed));
    let sig = sk.try_sign(msg).ok()?;
    Some(sig.encode().into())
}

/// `VerifyingKey::<MlDsa65>::decode(vk)`, `Signature::decode(sig)` and
/// `verify(msg, ..)`: whether the signature decodes and verifies.
#[verifier::external_body]
pub(crate) fn mldsa65_verify(vk: &[u8; 1952], msg: &[u8], sig: &[u8; 3309]) -> (r: bool)
    ensures
        r == spec_mldsa65_verify(vk@, msg@, sig@),
{
    let vk = ml_dsa::VerifyingKey::<ml_dsa::MlDsa65>::decode(&ml_dsa::EncodedVerifyingKey::<
        ml_dsa::MlDsa65,
    >::from(*vk));
    match ml_dsa::Signature::<ml_dsa::MlDsa65>::decode(&ml_dsa::EncodedSignature::<
        ml_dsa::MlDsa65,
    >::from(*sig)) {
        Some(s) => vk.verify(msg, &s).is_ok(),
        None => false,
    }
}

/// `ring`'s `LessSafeKey` for `AES_256_GCM`, `seal_in_place_append_tag`:
/// the ciphertext followed by the 16-byte tag. `ring` refuses only an
/// input longer than its limit of `AES_GCM_MAX_INPUT` bytes (or associated
/// data whose bit length overflows 64 bits), so below that it succeeds. A
/// ciphertext it produces opens again to the plaintext under the same key,
/// nonce and associated data.
#[verifier::external_body]
pub(crate) fn aes256gcm_seal(key: &[u8; 32], nonce: &[u8; 12], aad: &[u8], plaintext: Vec<u8>) -> (r:
    Option<Vec<u8>>)
    ensures
        plaintext@.len() <= AES_GCM_MAX_INPUT && aad@.len() <= AES_GCM_MAX_INPUT ==> r is Some,
        r matches Some(c) ==> c@ == spec_aes256gcm_seal(key@, nonce@, aad@, plaintext@)
            && c@.len() == plaintext@.len() + 16 && spec_aes256gcm_open(key@, nonce@, aad@, c@)
            == Some(plaintext@),
{
    let unbound = ring::aead::UnboundKey::new(&ring::aead::AES_256_GCM, key).ok()?;
    let sealing = ring::aead::LessSafeKey::new(unbound);
    let mut buf = plaintext;
    sealing.seal_in_place_append_tag(
        ring::aead::Nonce::assume_unique_for_key(*nonce),
        ring::aead::Aad::from(aad),
        &mut buf,
    ).ok()?;
    Some(buf)
}

/// `ring`'s `LessSafeKey` for `AES_256_GCM`, `open_in_place`: the
/// plaintext of a ciphertext with appended tag, or `None` when it does not
/// authenticate.
#[verifier::external_body]
pub(crate) fn aes256gcm_open(key: &[u8; 32], nonce: &[u8; 12], aad: &[u8], ciphertext: Vec<u8>) -> (r:
    Option<Vec<u8>>)
    ensures
        r is Some <==> spec_aes256gcm_open(key@, nonce@, aad@, ciphertext@) is Some,
        r matches Some(p) ==> spec_aes256gcm_open(key@, nonce@, aad@, ciphertext@) == Some(p@),
{
    let unbound = ring::aead::UnboundKey::new(&ring::aead::AES_256_GCM, key).ok()?;
    let opening = ring::aead::LessSafeKey::new(unbound);
    let mut buf = ciphertext;
    let plain = opening.open_in_place(
        ring::aead::Nonce::assume_unique_for_key(*nonce),
        ring::aead::Aad::from(aad),
        &mut buf,
    ).ok()?;
    Some(plain.to_vec())
}

/// `ring::rand::SystemRandom::fill`: `N` random bytes, or `None` when the
/// system random source fails. Nothing is said of the bytes.
#[verifier::external_body]
pub(crate) fn system_random<const N: usize>() -> (r: Option<[u8; N]>) {
    let mut out = [0u8; N];
    ring::rand::SystemRandom::new().fill(&mut out).ok()?;
    Some(out)
}

/// `rand_core::OsRng::try_fill_bytes`: 32 random bytes from the operating
/// system, or `None` when it fails. Nothing is said of the bytes.
#[verifier::external_body]
pub(crate) fn os_random_32() -> (r: Option<[u8; 32]>) {
    let mut out = [0u8; 32];
    rand_core::OsRng.try_fill_bytes(&mut out).ok()?;
    Some(out)
}

/// `zeroize::Zeroize::zeroize` on a byte vector: overwrites the bytes and
/// leaves the vector empty.
#[verifier::external_body]
pub(crate) fn wipe_vec(v: &mut Vec<u8>)
    ensures
        final(v)@.len() == 0,
{
    v.zeroize();
}

/// `zeroize::Zeroize::zeroize` on a byte array: every byte becomes zero.
#[verifier::external_body]
pub(crate) fn wipe_key<const N: usize>(k: &mut [u8; N])
    ensures
        final(k)@ == Seq::new(N as nat, |_i: int| 0u8),
{
    k.zeroize();
}

} // verus!
