use chatix_protocol::crypto::auth::{
    compute_handshake_transcript, generate_auth_identity, sign_auth_response, sign_server_hello,
    verify_auth_response, verify_server_hello,
};
use chatix_protocol::crypto::e2e::{E2ePublicKey, ML_DSA_65_SIG_SIZE, ML_DSA_65_VK_SIZE};
use chatix_protocol::crypto::session::{ML_KEM_768_CT_SIZE, ML_KEM_768_EK_SIZE};
use chatix_protocol::payloads::common::{
    decode_bool, decode_sized_bytes, decode_sized_string, encode_sized_bytes, encode_sized_string,
    require_fully_consumed,
};
use chatix_protocol::payloads::e2e_key_payloads::E2E_PUBLIC_KEY_SIZE;
use chatix_protocol::payloads::{
    AccountStatusResponsePayload, AckQueuedMessagePayload, AuthAcceptPayload,
    AuthChallengePayload, AuthRejectPayload, AuthResponsePayload, ClientFinishPayload,
    ClientHelloPayload, ClosePayload, CloseReason, DeliverMessagePayload, DeliveryReceiptPayload,
    E2eKeyResponsePayload, ErrorPayload, FetchE2eKeyPayload, FetchQueuedMessagesPayload,
    FriendRemovedNotificationPayload, FriendRequestDecisionPayload, FriendRequestResultPayload,
    FriendRequestStatus, FriendStatus, FriendStatusUpdatePayload, IncomingFriendRequestPayload,
    MessageStatus, MessageStatusUpdatePayload, PayloadError, PingPayload, PongPayload,
    PublishE2eKeyPayload, PublishE2eKeyResultPayload, QueryAccountStatusPayload,
    QuerySubscriptionStatusPayload, QueuedMessageDeliveryPayload, RegisterDevicePayload,
    RegisterResponsePayload, RemoveFriendPayload, RemoveFriendResultPayload, RemoveFriendStatus,
    SendFriendRequestPayload, SendMessagePayload, SendTypingIndicatorPayload,
    ServerAcceptPayload, ServerHelloPayload, SubscriptionStatusResponsePayload,
};

// ── account ────────────────────────────────────────────────────────────────

#[test]
fn query_account_status_roundtrip() {
    let payload = QueryAccountStatusPayload;
    let encoded = payload.encode();
    let decoded = QueryAccountStatusPayload::decode(&encoded).unwrap();
    assert_eq!(decoded, payload);
}

#[test]
fn query_account_status_rejects_nonempty_payload() {
    assert!(QueryAccountStatusPayload::decode(&[0]).is_err());
}

#[test]
fn account_status_response_roundtrip_not_banned() {
    let payload = AccountStatusResponsePayload {
        is_banned: false,
        ban_reason: String::new(),
        subscription_active: true,
        subscription_expiry_timestamp: 1_900_000_000,
    };
    let encoded = payload.encode().unwrap();
    let decoded = AccountStatusResponsePayload::decode(&encoded).unwrap();
    assert_eq!(decoded, payload);
}

#[test]
fn account_status_response_roundtrip_banned_with_reason() {
    let payload = AccountStatusResponsePayload {
        is_banned: true,
        ban_reason: "spam".to_string(),
        subscription_active: false,
        subscription_expiry_timestamp: 0,
    };
    let encoded = payload.encode().unwrap();
    let decoded = AccountStatusResponsePayload::decode(&encoded).unwrap();
    assert_eq!(decoded, payload);
}

#[test]
fn account_status_response_rejects_empty_payload() {
    assert!(AccountStatusResponsePayload::decode(&[]).is_err());
}

#[test]
fn account_status_response_rejects_non_canonical_boolean() {
    let mut encoded = AccountStatusResponsePayload {
        is_banned: false,
        ban_reason: String::new(),
        subscription_active: true,
        subscription_expiry_timestamp: 0,
    }
    .encode()
    .unwrap();
    encoded[0] = 7;
    assert!(AccountStatusResponsePayload::decode(&encoded).is_err());
}

#[test]
fn account_status_response_rejects_trailing_bytes() {
    let mut encoded = AccountStatusResponsePayload {
        is_banned: false,
        ban_reason: String::new(),
        subscription_active: true,
        subscription_expiry_timestamp: 0,
    }
    .encode()
    .unwrap();
    encoded.push(0);
    assert!(AccountStatusResponsePayload::decode(&encoded).is_err());
}

#[test]
fn account_status_response_rejects_truncated_subscription_fields() {
    let payload = AccountStatusResponsePayload {
        is_banned: false,
        ban_reason: String::new(),
        subscription_active: true,
        subscription_expiry_timestamp: 0,
    };
    let mut encoded = payload.encode().unwrap();
    encoded.truncate(encoded.len() - 1);
    assert!(AccountStatusResponsePayload::decode(&encoded).is_err());
}

// ── auth ───────────────────────────────────────────────────────────────────

#[test]
fn auth_challenge_roundtrip() {
    let p = AuthChallengePayload { nonce: [0xABu8; 32] };
    let enc = p.encode();
    assert_eq!(enc.len(), 32);
    let dec = AuthChallengePayload::decode(&enc).unwrap();
    assert_eq!(dec, p);
}

#[test]
fn auth_response_roundtrip_with_attestation() {
    let p = AuthResponsePayload {
        public_key: [0x01u8; ML_DSA_65_VK_SIZE],
        signature: [0x02u8; ML_DSA_65_SIG_SIZE],
        attestation_token: vec![0xDE, 0xAD, 0xBE, 0xEF],
    };
    let enc = p.encode().unwrap();
    let dec = AuthResponsePayload::decode(&enc).unwrap();
    assert_eq!(dec, p);
}

#[test]
fn auth_response_roundtrip_empty_attestation() {
    let p = AuthResponsePayload {
        public_key: [0x03u8; ML_DSA_65_VK_SIZE],
        signature: [0x04u8; ML_DSA_65_SIG_SIZE],
        attestation_token: vec![],
    };
    let enc = p.encode().unwrap();
    let dec = AuthResponsePayload::decode(&enc).unwrap();
    assert_eq!(dec, p);
}

#[test]
fn auth_response_uses_real_ml_dsa_65_signature() {
    let (seed, verifying_key) = generate_auth_identity().unwrap();
    let transcript = compute_handshake_transcript(b"client-hello-bytes", b"server-hello-bytes");
    let nonce = [0x7Eu8; 32];

    let signature = sign_auth_response(&transcript, &nonce, &seed).unwrap();
    let p = AuthResponsePayload { public_key: verifying_key, signature, attestation_token: vec![] };

    let enc = p.encode().unwrap();
    let dec = AuthResponsePayload::decode(&enc).unwrap();

    assert!(verify_auth_response(&transcript, &nonce, &dec.public_key, &dec.signature).is_ok());
}

#[test]
fn auth_accept_rejects_nonempty() {
    assert!(AuthAcceptPayload::decode(&[0]).is_err());
}

#[test]
fn auth_reject_rejects_nonempty() {
    assert!(AuthRejectPayload::decode(&[0]).is_err());
}

// ── close ──────────────────────────────────────────────────────────────────

#[test]
fn close_payload_roundtrip() {
    let payload = ClosePayload { reason: CloseReason::ClientRequest, message: "done".to_string() };
    let encoded = payload.encode().unwrap();
    let decoded = ClosePayload::decode(&encoded).unwrap();
    assert_eq!(decoded, payload);
}

#[test]
fn close_payload_rejects_trailing_bytes() {
    let mut encoded =
        ClosePayload { reason: CloseReason::ProtocolError, message: "bad frame".to_string() }
            .encode()
            .unwrap();
    encoded.push(0);
    assert!(ClosePayload::decode(&encoded).is_err());
}

// ── error ──────────────────────────────────────────────────────────────────

#[test]
fn error_payload_roundtrip() {
    let payload = ErrorPayload { message: "protocol violation".to_string() };
    let encoded = payload.encode().unwrap();
    let decoded = ErrorPayload::decode(&encoded).unwrap();
    assert_eq!(decoded.message, payload.message);
}

#[test]
fn error_payload_rejects_trailing_bytes() {
    let mut encoded = ErrorPayload { message: "bad".to_string() }.encode().unwrap();
    encoded.push(0);
    assert!(ErrorPayload::decode(&encoded).is_err());
}

// ── e2e keys ───────────────────────────────────────────────────────────────

fn sample_key() -> E2ePublicKey {
    E2ePublicKey {
        x25519_public: [0x01u8; 32],
        ml_kem_ek: [0x02u8; ML_KEM_768_EK_SIZE],
        dsa_verifying_key: [0x03u8; ML_DSA_65_VK_SIZE],
    }
}

#[test]
fn publish_e2e_key_roundtrip() {
    let payload = PublishE2eKeyPayload { key: sample_key() };
    let encoded = payload.encode();
    assert_eq!(encoded.len(), E2E_PUBLIC_KEY_SIZE);
    let decoded = PublishE2eKeyPayload::decode(&encoded).unwrap();
    assert_eq!(decoded, payload);
}

#[test]
fn publish_e2e_key_matches_expected_wire_size() {
    // 32 (x25519) + 1184 (ML-KEM-768 ek) + 1952 (ML-DSA-65 vk) = 3168.
    assert_eq!(E2E_PUBLIC_KEY_SIZE, 3168);
}

#[test]
fn publish_e2e_key_rejects_truncated_input() {
    let encoded = PublishE2eKeyPayload { key: sample_key() }.encode();
    assert!(PublishE2eKeyPayload::decode(&encoded[..encoded.len() - 1]).is_err());
}

#[test]
fn publish_e2e_key_rejects_trailing_bytes() {
    let mut encoded = PublishE2eKeyPayload { key: sample_key() }.encode();
    encoded.push(0);
    assert!(PublishE2eKeyPayload::decode(&encoded).is_err());
}

#[test]
fn publish_e2e_key_result_roundtrip_success() {
    let payload = PublishE2eKeyResultPayload { success: true, message: "ok".to_string() };
    let encoded = payload.encode().unwrap();
    let decoded = PublishE2eKeyResultPayload::decode(&encoded).unwrap();
    assert_eq!(decoded, payload);
}

#[test]
fn publish_e2e_key_result_roundtrip_failure() {
    let payload =
        PublishE2eKeyResultPayload { success: false, message: "not authenticated".to_string() };
    let encoded = payload.encode().unwrap();
    let decoded = PublishE2eKeyResultPayload::decode(&encoded).unwrap();
    assert_eq!(decoded, payload);
}

#[test]
fn publish_e2e_key_result_rejects_non_canonical_boolean() {
    let mut encoded =
        PublishE2eKeyResultPayload { success: true, message: String::new() }.encode().unwrap();
    encoded[0] = 2;
    assert!(PublishE2eKeyResultPayload::decode(&encoded).is_err());
}

#[test]
fn publish_e2e_key_result_rejects_empty_payload() {
    assert!(PublishE2eKeyResultPayload::decode(&[]).is_err());
}

#[test]
fn fetch_e2e_key_roundtrip() {
    let payload = FetchE2eKeyPayload { target_username: "bob".to_string() };
    let decoded = FetchE2eKeyPayload::decode(&payload.encode().unwrap()).unwrap();
    assert_eq!(decoded, payload);
}

#[test]
fn fetch_e2e_key_rejects_trailing_bytes() {
    let mut encoded = FetchE2eKeyPayload { target_username: "bob".to_string() }.encode().unwrap();
    encoded.push(0);
    assert!(FetchE2eKeyPayload::decode(&encoded).is_err());
}

#[test]
fn e2e_key_response_roundtrip_found() {
    let payload = E2eKeyResponsePayload { username: "alice".to_string(), key: Some(sample_key()) };
    let encoded = payload.encode().unwrap();
    let decoded = E2eKeyResponsePayload::decode(&encoded).unwrap();
    assert_eq!(decoded, payload);
}

#[test]
fn e2e_key_response_matches_expected_max_wire_size() {
    // 130 (2-byte length prefix + 128-byte username) + 1 (status) + 3168
    // (key bundle) = 3299.
    let payload = E2eKeyResponsePayload { username: "a".repeat(128), key: Some(sample_key()) };
    let encoded = payload.encode().unwrap();
    assert_eq!(encoded.len(), 3299);
}

#[test]
fn e2e_key_response_roundtrip_not_found() {
    let payload = E2eKeyResponsePayload { username: "ghost".to_string(), key: None };
    let encoded = payload.encode().unwrap();
    let decoded = E2eKeyResponsePayload::decode(&encoded).unwrap();
    assert_eq!(decoded, payload);
}

#[test]
fn e2e_key_response_rejects_unknown_status() {
    let mut encoded =
        E2eKeyResponsePayload { username: "alice".to_string(), key: None }.encode().unwrap();
    *encoded.last_mut().unwrap() = 7;
    assert!(E2eKeyResponsePayload::decode(&encoded).is_err());
}

#[test]
fn e2e_key_response_rejects_missing_status_byte() {
    let encoded = encode_sized_string("alice").unwrap();
    assert!(E2eKeyResponsePayload::decode(&encoded).is_err());
}

#[test]
fn e2e_key_response_rejects_truncated_key_material() {
    let encoded = E2eKeyResponsePayload { username: "alice".to_string(), key: Some(sample_key()) }
        .encode()
        .unwrap();
    assert!(E2eKeyResponsePayload::decode(&encoded[..encoded.len() - 1]).is_err());
}

#[test]
fn e2e_key_response_rejects_trailing_bytes_after_not_found() {
    let mut encoded =
        E2eKeyResponsePayload { username: "ghost".to_string(), key: None }.encode().unwrap();
    encoded.push(0);
    assert!(E2eKeyResponsePayload::decode(&encoded).is_err());
}

// ── friends ────────────────────────────────────────────────────────────────

#[test]
fn send_friend_request_roundtrip() {
    let p = SendFriendRequestPayload { target_username: "bob".to_string() };
    let decoded = SendFriendRequestPayload::decode(&p.encode().unwrap()).unwrap();
    assert_eq!(decoded, p);
}

#[test]
fn send_friend_request_rejects_trailing_bytes() {
    let mut enc = SendFriendRequestPayload { target_username: "bob".to_string() }.encode().unwrap();
    enc.push(0);
    assert!(SendFriendRequestPayload::decode(&enc).is_err());
}

#[test]
fn friend_request_result_roundtrip_all_statuses() {
    for status in [
        FriendRequestStatus::Accepted,
        FriendRequestStatus::Rejected,
        FriendRequestStatus::UserNotFound,
    ] {
        let p = FriendRequestResultPayload { status };
        let decoded = FriendRequestResultPayload::decode(&p.encode()).unwrap();
        assert_eq!(decoded, p);
    }
}

#[test]
fn friend_request_result_rejects_unknown_status() {
    assert!(FriendRequestResultPayload::decode(&[3]).is_err());
}

#[test]
fn friend_request_result_rejects_wrong_length() {
    assert!(FriendRequestResultPayload::decode(&[]).is_err());
    assert!(FriendRequestResultPayload::decode(&[0, 0]).is_err());
}

#[test]
fn incoming_friend_request_roundtrip() {
    let p = IncomingFriendRequestPayload { sender_username: "alice".to_string() };
    let decoded = IncomingFriendRequestPayload::decode(&p.encode().unwrap()).unwrap();
    assert_eq!(decoded, p);
}

#[test]
fn friend_request_decision_roundtrip_accept() {
    let p = FriendRequestDecisionPayload { sender_username: "alice".to_string(), accepted: true };
    let decoded = FriendRequestDecisionPayload::decode(&p.encode().unwrap()).unwrap();
    assert_eq!(decoded, p);
}

#[test]
fn friend_request_decision_roundtrip_reject() {
    let p = FriendRequestDecisionPayload { sender_username: "alice".to_string(), accepted: false };
    let decoded = FriendRequestDecisionPayload::decode(&p.encode().unwrap()).unwrap();
    assert_eq!(decoded, p);
}

#[test]
fn friend_request_decision_rejects_non_canonical_bool() {
    let mut enc =
        FriendRequestDecisionPayload { sender_username: "alice".to_string(), accepted: true }
            .encode()
            .unwrap();
    *enc.last_mut().unwrap() = 7;
    assert!(FriendRequestDecisionPayload::decode(&enc).is_err());
}

#[test]
fn friend_request_decision_rejects_missing_bool() {
    let enc = SendFriendRequestPayload { target_username: "alice".to_string() }.encode().unwrap();
    assert!(FriendRequestDecisionPayload::decode(&enc).is_err());
}

#[test]
fn remove_friend_roundtrip() {
    let p = RemoveFriendPayload { friend_username: "bob".to_string() };
    let decoded = RemoveFriendPayload::decode(&p.encode().unwrap()).unwrap();
    assert_eq!(decoded, p);
}

#[test]
fn remove_friend_result_roundtrip_all_statuses() {
    for status in [RemoveFriendStatus::Success, RemoveFriendStatus::NotFound] {
        let p = RemoveFriendResultPayload { status };
        let decoded = RemoveFriendResultPayload::decode(&p.encode()).unwrap();
        assert_eq!(decoded, p);
    }
}

#[test]
fn remove_friend_result_rejects_unknown_status() {
    assert!(RemoveFriendResultPayload::decode(&[5]).is_err());
}

#[test]
fn friend_removed_notification_roundtrip() {
    let p = FriendRemovedNotificationPayload { removed_by_username: "alice".to_string() };
    let decoded = FriendRemovedNotificationPayload::decode(&p.encode().unwrap()).unwrap();
    assert_eq!(decoded, p);
}

#[test]
fn friend_status_update_roundtrip_all_statuses() {
    for status in [FriendStatus::Online, FriendStatus::Offline, FriendStatus::IsTyping] {
        let p = FriendStatusUpdatePayload {
            friend_username: "carol".to_string(),
            status,
            last_seen: 1_700_000_000,
        };
        let decoded = FriendStatusUpdatePayload::decode(&p.encode().unwrap()).unwrap();
        assert_eq!(decoded, p);
    }
}

#[test]
fn friend_status_update_rejects_unknown_status() {
    let p = FriendStatusUpdatePayload {
        friend_username: "carol".to_string(),
        status: FriendStatus::Online,
        last_seen: 0,
    };
    let mut enc = p.encode().unwrap();
    // The status byte comes right after the username string.
    let username_len = 2 + "carol".len();
    enc[username_len] = 9;
    assert!(FriendStatusUpdatePayload::decode(&enc).is_err());
}

#[test]
fn friend_status_update_rejects_truncated_payload() {
    let p = FriendStatusUpdatePayload {
        friend_username: "carol".to_string(),
        status: FriendStatus::Online,
        last_seen: 0,
    };
    let enc = p.encode().unwrap();
    assert!(FriendStatusUpdatePayload::decode(&enc[..enc.len() - 1]).is_err());
}

#[test]
fn send_typing_indicator_roundtrip() {
    let p = SendTypingIndicatorPayload { recipient_username: "dave".to_string() };
    let decoded = SendTypingIndicatorPayload::decode(&p.encode().unwrap()).unwrap();
    assert_eq!(decoded, p);
}

// ── hello ──────────────────────────────────────────────────────────────────

#[test]
fn client_hello_roundtrip() {
    let payload = ClientHelloPayload {
        client_id: "device-abc".to_string(),
        x25519_public_key: [0x01u8; 32],
        ml_kem_ek: [0x02u8; ML_KEM_768_EK_SIZE],
    };
    let encoded = payload.encode().unwrap();
    let decoded = ClientHelloPayload::decode(&encoded).unwrap();
    assert_eq!(decoded, payload);
}

#[test]
fn server_hello_roundtrip() {
    let payload = ServerHelloPayload {
        server_id: "chatix-server-1".to_string(),
        x25519_public_key: [0xAAu8; 32],
        ml_kem_ciphertext: [0xBBu8; ML_KEM_768_CT_SIZE],
        signature: [0xCCu8; ML_DSA_65_SIG_SIZE],
    };
    let encoded = payload.encode().unwrap();
    let decoded = ServerHelloPayload::decode(&encoded).unwrap();
    assert_eq!(decoded, payload);
}

#[test]
fn server_hello_uses_real_ml_dsa_65_signature() {
    let (signing_seed, pinned_verifying_key) = generate_auth_identity().unwrap();
    let client_hello_bytes = b"client-hello-wire-bytes";
    let x25519_public_key = [0xAAu8; 32];
    let ml_kem_ciphertext = [0xBBu8; ML_KEM_768_CT_SIZE];

    let signature =
        sign_server_hello(client_hello_bytes, &x25519_public_key, &ml_kem_ciphertext, &signing_seed)
            .unwrap();

    let payload = ServerHelloPayload {
        server_id: "chatix-server-1".to_string(),
        x25519_public_key,
        ml_kem_ciphertext,
        signature,
    };

    let encoded = payload.encode().unwrap();
    let decoded = ServerHelloPayload::decode(&encoded).unwrap();

    assert!(verify_server_hello(
        client_hello_bytes,
        &decoded.x25519_public_key,
        &decoded.ml_kem_ciphertext,
        &pinned_verifying_key,
        &decoded.signature,
    )
    .is_ok());
}

#[test]
fn client_hello_rejects_truncated_key_material() {
    let id_only = encode_sized_string("dev").unwrap();
    assert!(ClientHelloPayload::decode(&id_only).is_err());
}

#[test]
fn client_finish_rejects_non_canonical_boolean() {
    assert!(ClientFinishPayload::decode(&[2]).is_err());
}

#[test]
fn server_accept_rejects_non_canonical_boolean() {
    assert!(ServerAcceptPayload::decode(&[255]).is_err());
}

// ── messages ───────────────────────────────────────────────────────────────

#[test]
fn send_message_roundtrip() {
    let payload = SendMessagePayload {
        message_id: 1001,
        recipient_id: "bob-1".to_string(),
        content: vec![0, 159, 255, 42],
    };
    let encoded = payload.encode().unwrap();
    let decoded = SendMessagePayload::decode(&encoded).unwrap();
    assert_eq!(decoded, payload);
}

#[test]
fn send_message_rejects_trailing_bytes() {
    let mut encoded =
        SendMessagePayload { message_id: 1, recipient_id: "bob".to_string(), content: vec![1, 2, 3] }
            .encode()
            .unwrap();
    encoded.push(0);
    assert!(SendMessagePayload::decode(&encoded).is_err());
}

#[test]
fn send_message_rejects_truncated_message_id() {
    assert!(SendMessagePayload::decode(&[0, 1, 2]).is_err());
}

#[test]
fn deliver_message_roundtrip() {
    let payload =
        DeliverMessagePayload { message_id: 9999, sender_id: "alice".to_string(), content: vec![7, 8, 9] };
    let encoded = payload.encode().unwrap();
    let decoded = DeliverMessagePayload::decode(&encoded).unwrap();
    assert_eq!(decoded, payload);
}

#[test]
fn message_status_update_roundtrip_all_statuses() {
    for status in [MessageStatus::SentToServer, MessageStatus::Delivered, MessageStatus::Failed] {
        let p = MessageStatusUpdatePayload { message_id: 42, status };
        let decoded = MessageStatusUpdatePayload::decode(&p.encode()).unwrap();
        assert_eq!(decoded, p);
    }
}

#[test]
fn message_status_update_rejects_unknown_status() {
    let mut enc =
        MessageStatusUpdatePayload { message_id: 1, status: MessageStatus::Delivered }.encode();
    *enc.last_mut().unwrap() = 9;
    assert!(MessageStatusUpdatePayload::decode(&enc).is_err());
}

#[test]
fn message_status_update_rejects_wrong_length() {
    assert!(MessageStatusUpdatePayload::decode(&[0u8; 8]).is_err());
    assert!(MessageStatusUpdatePayload::decode(&[0u8; 10]).is_err());
}

#[test]
fn delivery_receipt_roundtrip() {
    let p = DeliveryReceiptPayload { message_id: 777 };
    let decoded = DeliveryReceiptPayload::decode(&p.encode()).unwrap();
    assert_eq!(decoded, p);
}

#[test]
fn delivery_receipt_rejects_wrong_length() {
    assert!(DeliveryReceiptPayload::decode(&[0u8; 7]).is_err());
    assert!(DeliveryReceiptPayload::decode(&[0u8; 9]).is_err());
}

// ── queue ──────────────────────────────────────────────────────────────────

#[test]
fn fetch_queued_messages_roundtrip() {
    let payload = FetchQueuedMessagesPayload;
    let encoded = payload.encode();
    let decoded = FetchQueuedMessagesPayload::decode(&encoded).unwrap();
    assert_eq!(decoded, payload);
}

#[test]
fn fetch_queued_messages_rejects_nonempty_payload() {
    assert!(FetchQueuedMessagesPayload::decode(&[0]).is_err());
}

#[test]
fn queued_message_delivery_roundtrip_keeps_content_opaque() {
    let payload = QueuedMessageDeliveryPayload {
        queue_id: 42,
        message_id: 1001,
        sender_id: "alice".to_string(),
        content: vec![0, 159, 255, 42],
    };
    let encoded = payload.encode().unwrap();
    let decoded = QueuedMessageDeliveryPayload::decode(&encoded).unwrap();
    assert_eq!(decoded, payload);
}

#[test]
fn queued_message_delivery_rejects_trailing_bytes() {
    let mut encoded = QueuedMessageDeliveryPayload {
        queue_id: 1,
        message_id: 2,
        sender_id: "bob".to_string(),
        content: vec![1, 2, 3],
    }
    .encode()
    .unwrap();
    encoded.push(0);
    assert!(QueuedMessageDeliveryPayload::decode(&encoded).is_err());
}

#[test]
fn queued_message_delivery_rejects_truncated_ids() {
    assert!(QueuedMessageDeliveryPayload::decode(&[0, 1, 2]).is_err());
}

#[test]
fn ack_queued_message_roundtrip() {
    let payload = AckQueuedMessagePayload { queue_id: 7 };
    let encoded = payload.encode();
    let decoded = AckQueuedMessagePayload::decode(&encoded).unwrap();
    assert_eq!(decoded, payload);
}

#[test]
fn ack_queued_message_rejects_wrong_length() {
    assert!(AckQueuedMessagePayload::decode(&[0, 1, 2]).is_err());
}

// ── registration ───────────────────────────────────────────────────────────

#[test]
fn register_device_roundtrip() {
    let payload = RegisterDevicePayload { username: "alice".to_string() };
    let encoded = payload.encode().unwrap();
    let decoded = RegisterDevicePayload::decode(&encoded).unwrap();
    assert_eq!(decoded, payload);
}

#[test]
fn register_device_rejects_trailing_bytes() {
    let mut encoded = RegisterDevicePayload { username: "bob".to_string() }.encode().unwrap();
    encoded.push(0);
    assert!(RegisterDevicePayload::decode(&encoded).is_err());
}

#[test]
fn register_response_roundtrip_success() {
    let payload = RegisterResponsePayload { success: true, message: "ok".to_string() };
    let encoded = payload.encode().unwrap();
    let decoded = RegisterResponsePayload::decode(&encoded).unwrap();
    assert_eq!(decoded, payload);
}

#[test]
fn register_response_roundtrip_failure() {
    let payload = RegisterResponsePayload { success: false, message: "username taken".to_string() };
    let encoded = payload.encode().unwrap();
    let decoded = RegisterResponsePayload::decode(&encoded).unwrap();
    assert_eq!(decoded, payload);
}

#[test]
fn register_response_rejects_non_canonical_boolean() {
    let mut encoded =
        RegisterResponsePayload { success: true, message: String::new() }.encode().unwrap();
    encoded[0] = 2;
    assert!(RegisterResponsePayload::decode(&encoded).is_err());
}

#[test]
fn register_response_rejects_empty_payload() {
    assert!(RegisterResponsePayload::decode(&[]).is_err());
}

// ── subscription ───────────────────────────────────────────────────────────

#[test]
fn query_subscription_status_roundtrip() {
    let payload = QuerySubscriptionStatusPayload;
    let encoded = payload.encode();
    let decoded = QuerySubscriptionStatusPayload::decode(&encoded).unwrap();
    assert_eq!(decoded, payload);
}

#[test]
fn query_subscription_status_rejects_nonempty_payload() {
    assert!(QuerySubscriptionStatusPayload::decode(&[0]).is_err());
}

#[test]
fn subscription_status_response_roundtrip() {
    let payload =
        SubscriptionStatusResponsePayload { is_active: true, expiry_timestamp: 1_900_000_000 };
    let encoded = payload.encode();
    let decoded = SubscriptionStatusResponsePayload::decode(&encoded).unwrap();
    assert_eq!(decoded, payload);
}

#[test]
fn subscription_status_response_rejects_wrong_length() {
    assert!(SubscriptionStatusResponsePayload::decode(&[0, 1, 2]).is_err());
}

#[test]
fn subscription_status_response_rejects_non_canonical_boolean() {
    let mut encoded =
        SubscriptionStatusResponsePayload { is_active: false, expiry_timestamp: 0 }.encode();
    encoded[0] = 7;
    assert!(SubscriptionStatusResponsePayload::decode(&encoded).is_err());
}

// ── shared codec pieces and exact wire forms ───────────────────────────────

#[test]
fn sized_string_wire_form_and_errors() {
    assert_eq!(encode_sized_string("héllo").unwrap(), vec![0, 6, b'h', 0xc3, 0xa9, b'l', b'l', b'o']);
    let (s, used) = decode_sized_string(&[0, 2, b'h', b'i', 9]).unwrap();
    assert_eq!(s, "hi");
    assert_eq!(used, 4);
    assert_eq!(decode_sized_string(&[0]).unwrap_err(), PayloadError::InvalidData("payload too short for string length".to_string()));
    assert_eq!(decode_sized_string(&[0, 3, b'a']).unwrap_err(), PayloadError::InvalidData("payload too short for string bytes".to_string()));
    assert_eq!(decode_sized_string(&[0, 1, 0xff]).unwrap_err(), PayloadError::InvalidData("string is not valid UTF-8".to_string()));
    let long = "x".repeat(70_000);
    assert_eq!(encode_sized_string(&long).unwrap_err(), PayloadError::InvalidInput("string too long".to_string()));
}

#[test]
fn sized_bytes_wire_form_and_errors() {
    assert_eq!(encode_sized_bytes(&[9, 8]).unwrap(), vec![0, 0, 0, 2, 9, 8]);
    let (b, used) = decode_sized_bytes(&[0, 0, 0, 1, 7, 7]).unwrap();
    assert_eq!(b, vec![7]);
    assert_eq!(used, 5);
    assert_eq!(decode_sized_bytes(&[0, 0, 0]).unwrap_err(), PayloadError::InvalidData("missing length".to_string()));
    assert_eq!(decode_sized_bytes(&[0, 0, 0, 2, 1]).unwrap_err(), PayloadError::InvalidData("not enough bytes".to_string()));
}

#[test]
fn require_fully_consumed_checks_the_length() {
    assert!(require_fully_consumed(&[1, 2, 3], 3, "x").is_ok());
    assert_eq!(require_fully_consumed(&[1, 2, 3], 2, "x").unwrap_err(), PayloadError::InvalidData("x payload length mismatch".to_string()));
}

#[test]
fn ping_and_pong_roundtrip() {
    let ping = PingPayload { timestamp: 0x0102_0304_0506_0708 };
    let enc = ping.encode();
    assert_eq!(enc, vec![1, 2, 3, 4, 5, 6, 7, 8]);
    assert_eq!(PingPayload::decode(&enc).unwrap(), ping);
    assert!(PingPayload::decode(&enc[..7]).is_err());
    let pong = PongPayload { timestamp: 5 };
    assert_eq!(PongPayload::decode(&pong.encode()).unwrap(), pong);
}

#[test]
fn delivery_receipt_wire_form_is_big_endian() {
    assert_eq!(DeliveryReceiptPayload { message_id: 777 }.encode(), vec![0, 0, 0, 0, 0, 0, 3, 9]);
}

#[test]
fn friend_request_decision_wire_form() {
    let enc = FriendRequestDecisionPayload { sender_username: "al".to_string(), accepted: true }
        .encode()
        .unwrap();
    assert_eq!(enc, vec![0, 2, b'a', b'l', 1]);
}

#[test]
fn encode_rejects_an_overlong_string() {
    let p = RegisterDevicePayload { username: "u".repeat(65_536) };
    assert_eq!(p.encode().unwrap_err(), PayloadError::InvalidInput("string too long".to_string()));
}

#[test]
fn close_reason_codes_roundtrip() {
    for code in 0u8..=255 {
        if let Ok(r) = CloseReason::from_u8(code) {
            assert_eq!(r.as_u8(), code);
        }
    }
    assert!(CloseReason::from_u8(200).is_err());
}

#[test]
fn decode_errors_name_what_was_wrong() {
    assert_eq!(decode_bool(0, "f").unwrap(), false);
    assert_eq!(decode_bool(1, "f").unwrap(), true);
    assert_eq!(
        decode_bool(2, "register_response success").unwrap_err(),
        PayloadError::InvalidData("register_response success must be encoded as 0 or 1".to_string())
    );
    assert_eq!(
        AckQueuedMessagePayload::decode(&[0, 1, 2]).unwrap_err(),
        PayloadError::InvalidData("ack_queued_message must be 8 bytes, got 3".to_string())
    );
    assert_eq!(
        SubscriptionStatusResponsePayload::decode(&[0u8; 12]).unwrap_err(),
        PayloadError::InvalidData(
            "invalid subscription_status_response length: expected 9, got 12".to_string()
        )
    );
    assert_eq!(
        CloseReason::from_u8(200).unwrap_err(),
        PayloadError::InvalidData("unknown close reason: 200".to_string())
    );
    assert_eq!(
        QueryAccountStatusPayload::decode(&[0]).unwrap_err(),
        PayloadError::InvalidData("query_account_status payload length mismatch".to_string())
    );
}
