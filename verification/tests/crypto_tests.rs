use chatix_protocol::crypto::auth::{
    auth_identity_from_seed, compute_handshake_transcript, generate_auth_identity, sign_auth_response, sign_server_hello,
    verify_auth_response, verify_server_hello, NONCE_LEN, TRANSCRIPT_LEN,
};
use chatix_protocol::crypto::e2e::{
    e2e_keypair_from_seeds, encrypt_and_sign, seal_blob_with, generate_e2e_keypair, verify_and_decrypt, AES_NONCE_END, GCM_TAG_LEN,
    MIN_BLOB_LEN, ML_DSA_65_SIG_SIZE,
};
use chatix_protocol::crypto::safety_number::{
    compute_fingerprint, safety_number, verify_key_unchanged,
};
use chatix_protocol::crypto::session::{
    ClientHandshakeState, ServerHandshakeState, ML_KEM_768_CT_SIZE,
};
use chatix_protocol::error::ProtocolError;
use ml_dsa::{EncodedSignature, MlDsa65, Signature as DsaSignature};

// ── device authentication ──────────────────────────────────────────────────

fn sample_transcript(tag: u8) -> [u8; TRANSCRIPT_LEN] {
    compute_handshake_transcript(&[tag], &[tag.wrapping_add(1)])
}

#[test]
fn auth_roundtrip_succeeds() {
    let (seed, vk) = generate_auth_identity().unwrap();
    let transcript = sample_transcript(1);
    let nonce = [0x42u8; NONCE_LEN];

    let sig = sign_auth_response(&transcript, &nonce, &seed).unwrap();
    assert!(verify_auth_response(&transcript, &nonce, &vk, &sig).is_ok());
}

#[test]
fn wrong_transcript_is_rejected() {
    let (seed, vk) = generate_auth_identity().unwrap();
    let signer_transcript = sample_transcript(1);
    let verifier_transcript = sample_transcript(2);
    let nonce = [0x42u8; NONCE_LEN];

    let sig = sign_auth_response(&signer_transcript, &nonce, &seed).unwrap();
    assert!(verify_auth_response(&verifier_transcript, &nonce, &vk, &sig).is_err());
}

#[test]
fn wrong_nonce_is_rejected() {
    let (seed, vk) = generate_auth_identity().unwrap();
    let transcript = sample_transcript(1);

    let sig = sign_auth_response(&transcript, &[0x11u8; NONCE_LEN], &seed).unwrap();
    assert!(verify_auth_response(&transcript, &[0x22u8; NONCE_LEN], &vk, &sig).is_err());
}

#[test]
fn auth_wrong_verifying_key_is_rejected() {
    let (seed, _vk) = generate_auth_identity().unwrap();
    let (_, imposter_vk) = generate_auth_identity().unwrap();
    let transcript = sample_transcript(1);
    let nonce = [0x42u8; NONCE_LEN];

    let sig = sign_auth_response(&transcript, &nonce, &seed).unwrap();
    assert!(verify_auth_response(&transcript, &nonce, &imposter_vk, &sig).is_err());
}

#[test]
fn tampered_signature_is_rejected() {
    let (seed, vk) = generate_auth_identity().unwrap();
    let transcript = sample_transcript(1);
    let nonce = [0x42u8; NONCE_LEN];

    let mut sig = sign_auth_response(&transcript, &nonce, &seed).unwrap();
    sig[0] ^= 0xFF;
    assert!(verify_auth_response(&transcript, &nonce, &vk, &sig).is_err());
}

#[test]
fn server_hello_roundtrip_succeeds() {
    let (seed, pinned_vk) = generate_auth_identity().unwrap();
    let client_hello_bytes = b"client-hello-wire-bytes";
    let server_x25519_pk = [0x11u8; 32];
    let server_ml_kem_ct = [0x22u8; ML_KEM_768_CT_SIZE];

    let sig = sign_server_hello(client_hello_bytes, &server_x25519_pk, &server_ml_kem_ct, &seed)
        .unwrap();
    assert!(verify_server_hello(
        client_hello_bytes,
        &server_x25519_pk,
        &server_ml_kem_ct,
        &pinned_vk,
        &sig,
    )
    .is_ok());
}

#[test]
fn server_hello_wrong_client_hello_is_rejected() {
    let (seed, pinned_vk) = generate_auth_identity().unwrap();
    let server_x25519_pk = [0x11u8; 32];
    let server_ml_kem_ct = [0x22u8; ML_KEM_768_CT_SIZE];

    let sig = sign_server_hello(
        b"client-hello-from-session-a",
        &server_x25519_pk,
        &server_ml_kem_ct,
        &seed,
    )
    .unwrap();

    assert!(verify_server_hello(
        b"client-hello-from-session-b",
        &server_x25519_pk,
        &server_ml_kem_ct,
        &pinned_vk,
        &sig,
    )
    .is_err());
}

#[test]
fn server_hello_wrong_pinned_key_is_rejected() {
    let (seed, _real_vk) = generate_auth_identity().unwrap();
    let (_, imposter_vk) = generate_auth_identity().unwrap();
    let client_hello_bytes = b"client-hello-wire-bytes";
    let server_x25519_pk = [0x11u8; 32];
    let server_ml_kem_ct = [0x22u8; ML_KEM_768_CT_SIZE];

    let sig = sign_server_hello(client_hello_bytes, &server_x25519_pk, &server_ml_kem_ct, &seed)
        .unwrap();

    assert!(verify_server_hello(
        client_hello_bytes,
        &server_x25519_pk,
        &server_ml_kem_ct,
        &imposter_vk,
        &sig,
    )
    .is_err());
}

#[test]
fn server_hello_tampered_signature_is_rejected() {
    let (seed, pinned_vk) = generate_auth_identity().unwrap();
    let client_hello_bytes = b"client-hello-wire-bytes";
    let server_x25519_pk = [0x11u8; 32];
    let server_ml_kem_ct = [0x22u8; ML_KEM_768_CT_SIZE];

    let mut sig =
        sign_server_hello(client_hello_bytes, &server_x25519_pk, &server_ml_kem_ct, &seed)
            .unwrap();
    sig[0] ^= 0xFF;

    assert!(verify_server_hello(
        client_hello_bytes,
        &server_x25519_pk,
        &server_ml_kem_ct,
        &pinned_vk,
        &sig,
    )
    .is_err());
}

#[test]
fn transcript_depends_on_both_hellos() {
    let t = compute_handshake_transcript(b"a", b"b");
    assert_eq!(t.len(), TRANSCRIPT_LEN);
    assert_eq!(t, compute_handshake_transcript(b"a", b"b"));
    assert_ne!(t, compute_handshake_transcript(b"a", b"c"));
    assert_ne!(t, compute_handshake_transcript(b"c", b"b"));
}

#[test]
fn auth_failures_are_crypto_errors() {
    let (seed, vk) = generate_auth_identity().unwrap();
    let transcript = sample_transcript(3);
    let mut sig = sign_auth_response(&transcript, &[1u8; NONCE_LEN], &seed).unwrap();
    sig[10] ^= 1;
    assert!(matches!(
        verify_auth_response(&transcript, &[1u8; NONCE_LEN], &vk, &sig),
        Err(ProtocolError::CryptoError)
    ));
}

// ── end-to-end ─────────────────────────────────────────────────────────────

#[test]
fn e2e_roundtrip() {
    let (recipient_sk, recipient_pk) = generate_e2e_keypair().unwrap();
    let (sender_sk, sender_pk) = generate_e2e_keypair().unwrap();

    let plaintext = b"hello end-to-end";
    let blob = encrypt_and_sign(
        plaintext,
        &recipient_pk.x25519_public,
        &recipient_pk.ml_kem_ek,
        &sender_sk.dsa_signing_seed,
    )
    .unwrap();

    let recovered = verify_and_decrypt(
        &blob,
        &recipient_sk.x25519_secret,
        &recipient_sk.ml_kem_seed,
        &sender_pk.dsa_verifying_key,
    )
    .unwrap();

    assert_eq!(recovered, plaintext);
}

#[test]
fn tampered_ciphertext_is_rejected() {
    let (recipient_sk, recipient_pk) = generate_e2e_keypair().unwrap();
    let (sender_sk, sender_pk) = generate_e2e_keypair().unwrap();

    let mut blob = encrypt_and_sign(
        b"secret",
        &recipient_pk.x25519_public,
        &recipient_pk.ml_kem_ek,
        &sender_sk.dsa_signing_seed,
    )
    .unwrap();

    // Flip a bit in the AES ciphertext region.
    blob[AES_NONCE_END] ^= 0xff;

    assert!(verify_and_decrypt(
        &blob,
        &recipient_sk.x25519_secret,
        &recipient_sk.ml_kem_seed,
        &sender_pk.dsa_verifying_key,
    )
    .is_err());
}

#[test]
fn e2e_wrong_verifying_key_is_rejected() {
    let (recipient_sk, recipient_pk) = generate_e2e_keypair().unwrap();
    let (sender_sk, _) = generate_e2e_keypair().unwrap();
    let (_, imposter_pk) = generate_e2e_keypair().unwrap();

    let blob = encrypt_and_sign(
        b"secret",
        &recipient_pk.x25519_public,
        &recipient_pk.ml_kem_ek,
        &sender_sk.dsa_signing_seed,
    )
    .unwrap();

    assert!(verify_and_decrypt(
        &blob,
        &recipient_sk.x25519_secret,
        &recipient_sk.ml_kem_seed,
        &imposter_pk.dsa_verifying_key,
    )
    .is_err());
}

#[test]
fn blob_minimum_size_matches_constant() {
    let (_recipient_sk, recipient_pk) = generate_e2e_keypair().unwrap();
    let (sender_sk, _) = generate_e2e_keypair().unwrap();

    let blob = encrypt_and_sign(
        b"",
        &recipient_pk.x25519_public,
        &recipient_pk.ml_kem_ek,
        &sender_sk.dsa_signing_seed,
    )
    .unwrap();

    assert_eq!(blob.len(), MIN_BLOB_LEN);
    // The signature region parses as an ML-DSA-65 signature.
    let sig_slice = &blob[blob.len() - ML_DSA_65_SIG_SIZE..];
    let sig_arr = EncodedSignature::<MlDsa65>::try_from(sig_slice).unwrap();
    assert!(DsaSignature::<MlDsa65>::decode(&sig_arr).is_some());
}

#[test]
fn e2e_blob_length_is_plaintext_plus_overhead() {
    let (_recipient_sk, recipient_pk) = generate_e2e_keypair().unwrap();
    let (sender_sk, _) = generate_e2e_keypair().unwrap();
    let blob = encrypt_and_sign(
        &[5u8; 100],
        &recipient_pk.x25519_public,
        &recipient_pk.ml_kem_ek,
        &sender_sk.dsa_signing_seed,
    )
    .unwrap();
    assert_eq!(blob.len(), MIN_BLOB_LEN + 100);
    assert_eq!(MIN_BLOB_LEN, 32 + 1088 + 12 + GCM_TAG_LEN + ML_DSA_65_SIG_SIZE);
    // The blob does not carry the plaintext in the clear.
    assert!(!blob.windows(100).any(|w| w == [5u8; 100]));
}

#[test]
fn e2e_short_blob_is_a_crypto_error() {
    let (recipient_sk, _) = generate_e2e_keypair().unwrap();
    let (_, sender_pk) = generate_e2e_keypair().unwrap();
    let blob = vec![0u8; MIN_BLOB_LEN - 1];
    assert!(matches!(
        verify_and_decrypt(
            &blob,
            &recipient_sk.x25519_secret,
            &recipient_sk.ml_kem_seed,
            &sender_pk.dsa_verifying_key,
        ),
        Err(ProtocolError::CryptoError)
    ));
}

#[test]
fn e2e_other_recipient_cannot_open() {
    let (_recipient_sk, recipient_pk) = generate_e2e_keypair().unwrap();
    let (other_sk, _) = generate_e2e_keypair().unwrap();
    let (sender_sk, sender_pk) = generate_e2e_keypair().unwrap();
    let blob = encrypt_and_sign(
        b"for recipient only",
        &recipient_pk.x25519_public,
        &recipient_pk.ml_kem_ek,
        &sender_sk.dsa_signing_seed,
    )
    .unwrap();
    assert!(verify_and_decrypt(
        &blob,
        &other_sk.x25519_secret,
        &other_sk.ml_kem_seed,
        &sender_pk.dsa_verifying_key,
    )
    .is_err());
}

#[test]
fn e2e_rejects_an_invalid_encapsulation_key() {
    let (_, recipient_pk) = generate_e2e_keypair().unwrap();
    let (sender_sk, _) = generate_e2e_keypair().unwrap();
    // Coefficients encoded as 0xfff are out of range for ML-KEM.
    let bad_ek = [0xffu8; 1184];
    assert!(matches!(
        encrypt_and_sign(b"x", &recipient_pk.x25519_public, &bad_ek, &sender_sk.dsa_signing_seed),
        Err(ProtocolError::CryptoError)
    ));
}

// ── transport session ──────────────────────────────────────────────────────

#[test]
fn session_key_derivation_matches() {
    let client_state = ClientHandshakeState::generate().unwrap();

    let x25519_pub = client_state.x25519_public;
    let ml_kem_ek = client_state.ml_kem_ek;

    let server_state = ServerHandshakeState::respond(x25519_pub, &ml_kem_ek).unwrap();

    let client_keys = client_state
        .derive_session_keys(server_state.x25519_public, &server_state.ml_kem_ciphertext)
        .unwrap();

    assert_eq!(client_keys.client_to_server, server_state.session_keys.client_to_server);
    assert_eq!(client_keys.server_to_client, server_state.session_keys.server_to_client);
}

#[test]
fn c2s_and_s2c_keys_differ() {
    let client_state = ClientHandshakeState::generate().unwrap();
    let server_state =
        ServerHandshakeState::respond(client_state.x25519_public, &client_state.ml_kem_ek).unwrap();
    assert_ne!(server_state.session_keys.client_to_server, server_state.session_keys.server_to_client);
}

#[test]
fn session_keys_differ_between_handshakes() {
    let a = ClientHandshakeState::generate().unwrap();
    let b = ClientHandshakeState::generate().unwrap();
    let sa = ServerHandshakeState::respond(a.x25519_public, &a.ml_kem_ek).unwrap();
    let sb = ServerHandshakeState::respond(b.x25519_public, &b.ml_kem_ek).unwrap();
    assert_ne!(sa.session_keys.client_to_server, sb.session_keys.client_to_server);
}

#[test]
fn respond_rejects_an_invalid_encapsulation_key() {
    let client_state = ClientHandshakeState::generate().unwrap();
    assert!(matches!(
        ServerHandshakeState::respond(client_state.x25519_public, &[0xffu8; 1184]),
        Err(ProtocolError::CryptoError)
    ));
}

// ── safety numbers ─────────────────────────────────────────────────────────

#[test]
fn safety_number_is_symmetric() {
    let (_alice_sk, alice_pk) = generate_e2e_keypair().unwrap();
    let (_bob_sk, bob_pk) = generate_e2e_keypair().unwrap();

    let from_alice = safety_number("alice", &alice_pk, "bob", &bob_pk);
    let from_bob = safety_number("bob", &bob_pk, "alice", &alice_pk);

    assert_eq!(from_alice, from_bob);
}

#[test]
fn safety_number_changes_if_a_public_key_is_swapped() {
    let (_alice_sk, alice_pk) = generate_e2e_keypair().unwrap();
    let (_bob_sk, bob_pk) = generate_e2e_keypair().unwrap();
    let (_, imposter_pk) = generate_e2e_keypair().unwrap();

    let genuine = safety_number("alice", &alice_pk, "bob", &bob_pk);
    let tampered = safety_number("alice", &alice_pk, "bob", &imposter_pk);

    assert_ne!(genuine, tampered);
}

#[test]
fn safety_number_changes_if_an_identifier_changes() {
    let (_alice_sk, alice_pk) = generate_e2e_keypair().unwrap();
    let (_bob_sk, bob_pk) = generate_e2e_keypair().unwrap();

    let original = safety_number("alice", &alice_pk, "bob", &bob_pk);
    let renamed = safety_number("alice2", &alice_pk, "bob", &bob_pk);

    assert_ne!(original, renamed);
}

#[test]
fn safety_number_has_expected_shape() {
    let (_alice_sk, alice_pk) = generate_e2e_keypair().unwrap();
    let (_bob_sk, bob_pk) = generate_e2e_keypair().unwrap();

    let number = safety_number("alice", &alice_pk, "bob", &bob_pk);

    // 12 groups of 5 digits, space-separated: 60 digits + 11 spaces.
    assert_eq!(number.len(), 71);
    assert!(number.chars().all(|c| c.is_ascii_digit() || c == ' '));
    assert_eq!(number.split(' ').count(), 12);
}

#[test]
fn verify_key_unchanged_accepts_the_same_key() {
    let (_alice_sk, alice_pk) = generate_e2e_keypair().unwrap();

    assert!(verify_key_unchanged("alice", &alice_pk, &alice_pk).is_ok());
}

#[test]
fn verify_key_unchanged_rejects_an_imposter_key() {
    let (_alice_sk, alice_pk) = generate_e2e_keypair().unwrap();
    let (_, imposter_pk) = generate_e2e_keypair().unwrap();

    assert!(verify_key_unchanged("alice", &alice_pk, &imposter_pk).is_err());
}

#[test]
fn verify_key_unchanged_error_identifies_the_affected_identity() {
    let (_alice_sk, alice_pk) = generate_e2e_keypair().unwrap();
    let (_, imposter_pk) = generate_e2e_keypair().unwrap();

    match verify_key_unchanged("alice", &alice_pk, &imposter_pk) {
        Err(ProtocolError::IdentityKeyChanged { identifier }) => {
            assert_eq!(identifier, "alice");
        }
        other => panic!("expected IdentityKeyChanged, got {other:?}"),
    }
}

#[test]
fn verify_key_unchanged_notices_a_single_changed_field() {
    let (_, pinned) = generate_e2e_keypair().unwrap();
    let mut fetched = pinned.clone();
    fetched.dsa_verifying_key[1951] ^= 1;
    assert!(verify_key_unchanged("carol", &pinned, &fetched).is_err());
    let mut fetched = pinned.clone();
    fetched.x25519_public[0] ^= 1;
    assert!(verify_key_unchanged("carol", &pinned, &fetched).is_err());
}

#[test]
fn fingerprint_is_deterministic_and_covers_every_key() {
    let (_, pk) = generate_e2e_keypair().unwrap();
    let fp = compute_fingerprint("alice", &pk);
    assert_eq!(fp, compute_fingerprint("alice", &pk));
    assert_ne!(fp, compute_fingerprint("alicf", &pk));
    let mut other = pk.clone();
    other.ml_kem_ek[0] ^= 1;
    assert_ne!(fp, compute_fingerprint("alice", &other));
}

#[test]
fn safety_number_orders_fingerprints_by_identifier() {
    let (_, a) = generate_e2e_keypair().unwrap();
    let (_, b) = generate_e2e_keypair().unwrap();
    let n = safety_number("zed", &a, "amy", &b);
    let groups: Vec<&str> = n.split(' ').collect();
    // The first six groups come from "amy"'s fingerprint.
    let amy_fp = compute_fingerprint("amy", &b);
    let value = u64::from_be_bytes([0, 0, 0, amy_fp[0], amy_fp[1], amy_fp[2], amy_fp[3], amy_fp[4]]);
    assert_eq!(groups[0], format!("{:05}", value % 100_000));
    // A prefix orders first.
    let m = safety_number("ab", &a, "a", &b);
    let a_fp = compute_fingerprint("a", &b);
    let value = u64::from_be_bytes([0, 0, 0, a_fp[0], a_fp[1], a_fp[2], a_fp[3], a_fp[4]]);
    assert_eq!(m.split(' ').next().unwrap(), format!("{:05}", value % 100_000));
}

#[test]
fn safety_number_groups_follow_the_fingerprints() {
    let (_, a) = generate_e2e_keypair().unwrap();
    let (_, b) = generate_e2e_keypair().unwrap();
    let n = safety_number("alice", &a, "bob", &b);
    let mut expected = Vec::new();
    for fp in [compute_fingerprint("alice", &a), compute_fingerprint("bob", &b)] {
        for chunk in fp[..30].chunks(5) {
            let mut buf = [0u8; 8];
            buf[3..].copy_from_slice(chunk);
            expected.push(format!("{:05}", u64::from_be_bytes(buf) % 100_000));
        }
    }
    assert_eq!(n, expected.join(" "));
}

#[test]
fn secret_keys_can_be_wiped() {
    let (mut sk, _) = generate_e2e_keypair().unwrap();
    sk.zeroize();
    assert_eq!(sk.x25519_secret, [0u8; 32]);
    assert_eq!(sk.ml_kem_seed, [0u8; 64]);
    assert_eq!(sk.dsa_signing_seed, [0u8; 32]);

    let client_state = ClientHandshakeState::generate().unwrap();
    let mut server_state =
        ServerHandshakeState::respond(client_state.x25519_public, &client_state.ml_kem_ek).unwrap();
    assert_ne!(server_state.session_keys.client_to_server, [0u8; 32]);
    server_state.session_keys.zeroize();
    assert_eq!(server_state.session_keys.client_to_server, [0u8; 32]);
    assert_eq!(server_state.session_keys.server_to_client, [0u8; 32]);
}

#[test]
fn identities_from_seeds_are_deterministic() {
    let (seed, vk) = auth_identity_from_seed([7u8; 32]);
    assert_eq!(seed, [7u8; 32]);
    assert_eq!(vk, auth_identity_from_seed([7u8; 32]).1);
    assert_ne!(vk, auth_identity_from_seed([8u8; 32]).1);
    let sig = sign_auth_response(&[1u8; 32], &[2u8; 32], &seed).unwrap();
    assert!(verify_auth_response(&[1u8; 32], &[2u8; 32], &vk, &sig).is_ok());

    let (sk, pk) = e2e_keypair_from_seeds([1u8; 32], [2u8; 64], [3u8; 32]);
    assert_eq!(sk.x25519_secret, [1u8; 32]);
    assert_eq!(sk.ml_kem_seed, [2u8; 64]);
    assert_eq!(sk.dsa_signing_seed, [3u8; 32]);
    let (_, pk2) = e2e_keypair_from_seeds([1u8; 32], [2u8; 64], [3u8; 32]);
    assert_eq!(pk, pk2);
    assert_ne!(pk.x25519_public, [1u8; 32]);

    let a = ClientHandshakeState::from_seeds([4u8; 32], [5u8; 64]);
    let b = ClientHandshakeState::from_seeds([4u8; 32], [5u8; 64]);
    assert_eq!(a.x25519_public, b.x25519_public);
    assert_eq!(a.ml_kem_ek, b.ml_kem_ek);
    // The same ML-KEM seed gives the same encapsulation key in both uses.
    assert_eq!(ClientHandshakeState::from_seeds([1u8; 32], [2u8; 64]).ml_kem_ek, pk.ml_kem_ek);
}

#[test]
fn seal_blob_with_is_deterministic_and_opens() {
    let (rsk, rpk) = e2e_keypair_from_seeds([1u8; 32], [2u8; 64], [3u8; 32]);
    let (ssk, spk) = e2e_keypair_from_seeds([4u8; 32], [5u8; 64], [6u8; 32]);
    let blob = seal_blob_with(
        b"fixed randomness",
        &rpk.x25519_public,
        &rpk.ml_kem_ek,
        &ssk.dsa_signing_seed,
        &[9u8; 32],
        &[10u8; 32],
        &[11u8; 12],
    )
    .unwrap();
    let again = seal_blob_with(
        b"fixed randomness",
        &rpk.x25519_public,
        &rpk.ml_kem_ek,
        &ssk.dsa_signing_seed,
        &[9u8; 32],
        &[10u8; 32],
        &[11u8; 12],
    )
    .unwrap();
    assert_eq!(blob, again);
    assert_eq!(blob.len(), MIN_BLOB_LEN + 16);
    assert_eq!(&blob[AES_NONCE_END - 12..AES_NONCE_END], &[11u8; 12]);
    let opened =
        verify_and_decrypt(&blob, &rsk.x25519_secret, &rsk.ml_kem_seed, &spk.dsa_verifying_key)
            .unwrap();
    assert_eq!(opened, b"fixed randomness");
    assert!(matches!(
        seal_blob_with(
            b"x",
            &rpk.x25519_public,
            &[0xffu8; 1184],
            &ssk.dsa_signing_seed,
            &[9u8; 32],
            &[10u8; 32],
            &[11u8; 12],
        ),
        Err(ProtocolError::CryptoError)
    ));
}

#[test]
fn respond_with_is_deterministic_and_agrees() {
    let client = ClientHandshakeState::from_seeds([4u8; 32], [5u8; 64]);
    let a = ServerHandshakeState::respond_with(
        client.x25519_public,
        &client.ml_kem_ek,
        [6u8; 32],
        [7u8; 32],
    )
    .unwrap();
    let b = ServerHandshakeState::respond_with(
        client.x25519_public,
        &client.ml_kem_ek,
        [6u8; 32],
        [7u8; 32],
    )
    .unwrap();
    assert_eq!(a.ml_kem_ciphertext, b.ml_kem_ciphertext);
    assert_eq!(a.session_keys.client_to_server, b.session_keys.client_to_server);
    let keys = client.derive_session_keys(a.x25519_public, &a.ml_kem_ciphertext).unwrap();
    assert_eq!(keys.client_to_server, a.session_keys.client_to_server);
    assert_eq!(keys.server_to_client, a.session_keys.server_to_client);
    assert!(matches!(
        ServerHandshakeState::respond_with([1u8; 32], &[0xffu8; 1184], [6u8; 32], [7u8; 32]),
        Err(ProtocolError::CryptoError)
    ));
}
