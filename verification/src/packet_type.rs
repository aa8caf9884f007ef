//! Packet types, their per-type payload ceilings and their direction.
use crate::crypto::e2e::{ML_DSA_65_SIG_SIZE, ML_DSA_65_VK_SIZE};
use crate::crypto::session::{ML_KEM_768_CT_SIZE, ML_KEM_768_EK_SIZE};
use crate::be_bytes::lemma_u64_be;
use crate::error::ProtocolError;
use crate::payloads::common::{lemma_sized_bytes_shape, lemma_sized_string_shape, spec_utf8};
use crate::payloads::{
    AccountStatusResponsePayload, AckQueuedMessagePayload, AuthChallengePayload,
    AuthResponsePayload, ClientFinishPayload, DeliveryReceiptPayload, E2eKeyResponsePayload,
    FetchE2eKeyPayload, FriendRemovedNotificationPayload, FriendRequestDecisionPayload,
    FriendRequestResultPayload, FriendStatusUpdatePayload, IncomingFriendRequestPayload,
    MessageStatusUpdatePayload, PingPayload, PongPayload, PublishE2eKeyPayload,
    PublishE2eKeyResultPayload, RegisterDevicePayload, RegisterResponsePayload,
    RemoveFriendPayload, RemoveFriendResultPayload, SendFriendRequestPayload,
    SendTypingIndicatorPayload, ServerAcceptPayload, ServerHelloPayload,
};
use vstd::prelude::*;

verus! {

/// Every packet type of the protocol. Handshake 1-4, auth 5-8, control
/// 20-38, messaging 40-46, error 254 and close 255.
#[derive(Debug, Clone, Copy, PartialEq, Eq, Structural)]
pub enum PacketType {
    ClientHello,
    ServerHello,
    ClientFinish,
    ServerAccept,
    AuthChallenge,
    AuthResponse,
    AuthAccept,
    AuthReject,
    Ping,
    Pong,
    RegisterDevice,
    RegisterResponse,
    QueryAccountStatus,
    AccountStatusResponse,
    SendFriendRequest,
    FriendRequestResult,
    IncomingFriendRequest,
    FriendRequestDecision,
    RemoveFriend,
    RemoveFriendResult,
    FriendRemovedNotification,
    FriendStatusUpdate,
    SendTypingIndicator,
    PublishE2eKey,
    PublishE2eKeyResult,
    FetchE2eKey,
    E2eKeyResponse,
    SendMessage,
    DeliverMessage,
    FetchQueuedMessages,
    QueuedMessageDelivery,
    AckQueuedMessage,
    MessageStatusUpdate,
    DeliveryReceipt,
    Error,
    Close,
}

/// Which side of a connection a packet type may be sent from.
#[derive(Debug, Clone, Copy, PartialEq, Eq, Structural)]
pub enum Direction {
    ClientToServer,
    ServerToClient,
    /// Either side may send this type (keepalives, teardown).
    Bidirectional,
}

/// The wire code of each packet type.
pub open spec fn spec_type_code(t: PacketType) -> u8 {
    match t {
        PacketType::ClientHello => 1,
        PacketType::ServerHello => 2,
        PacketType::ClientFinish => 3,
        PacketType::ServerAccept => 4,
        PacketType::AuthChallenge => 5,
        PacketType::AuthResponse => 6,
        PacketType::AuthAccept => 7,
        PacketType::AuthReject => 8,
        PacketType::Ping => 20,
        PacketType::Pong => 21,
        PacketType::RegisterDevice => 22,
        PacketType::RegisterResponse => 23,
        PacketType::QueryAccountStatus => 24,
        PacketType::AccountStatusResponse => 25,
        PacketType::SendFriendRequest => 26,
        PacketType::FriendRequestResult => 27,
        PacketType::IncomingFriendRequest => 28,
        PacketType::FriendRequestDecision => 29,
        PacketType::RemoveFriend => 30,
        PacketType::RemoveFriendResult => 31,
        PacketType::FriendRemovedNotification => 32,
        PacketType::FriendStatusUpdate => 33,
        PacketType::SendTypingIndicator => 34,
        PacketType::PublishE2eKey => 35,
        PacketType::PublishE2eKeyResult => 36,
        PacketType::FetchE2eKey => 37,
        PacketType::E2eKeyResponse => 38,
        PacketType::SendMessage => 40,
        PacketType::DeliverMessage => 41,
        PacketType::FetchQueuedMessages => 42,
        PacketType::QueuedMessageDelivery => 43,
        PacketType::AckQueuedMessage => 44,
        PacketType::MessageStatusUpdate => 45,
        PacketType::DeliveryReceipt => 46,
        PacketType::Error => 254,
        PacketType::Close => 255,
    }
}

/// Whether `code` is the wire code of some packet type.
pub open spec fn spec_is_type_code(code: u8) -> bool {
    exists|t: PacketType| spec_type_code(t) == code
}

/// The largest plaintext payload each packet type may carry.
pub open spec fn spec_max_payload_size(t: PacketType) -> u32 {
    match t {
        PacketType::ClientHello => 1300,
        PacketType::ServerHello => 4509,
        PacketType::ClientFinish | PacketType::ServerAccept => 1,
        PacketType::AuthChallenge => 32,
        PacketType::AuthResponse => 9361,
        PacketType::AuthAccept | PacketType::AuthReject => 0,
        PacketType::Ping | PacketType::Pong => 8,
        PacketType::SendMessage | PacketType::DeliverMessage => 65536,
        PacketType::RegisterDevice => 130,
        PacketType::RegisterResponse => 259,
        PacketType::QueryAccountStatus => 0,
        PacketType::AccountStatusResponse => 268,
        PacketType::SendFriendRequest | PacketType::IncomingFriendRequest => 130,
        PacketType::FriendRequestResult => 1,
        PacketType::FriendRequestDecision => 131,
        PacketType::RemoveFriend
        | PacketType::FriendRemovedNotification
        | PacketType::SendTypingIndicator => 130,
        PacketType::RemoveFriendResult => 1,
        PacketType::FriendStatusUpdate => 139,
        PacketType::PublishE2eKey => 3168,
        PacketType::PublishE2eKeyResult => 259,
        PacketType::FetchE2eKey => 130,
        PacketType::E2eKeyResponse => 3299,
        PacketType::MessageStatusUpdate => 9,
        PacketType::DeliveryReceipt => 8,
        PacketType::FetchQueuedMessages => 0,
        PacketType::QueuedMessageDelivery => 65536,
        PacketType::AckQueuedMessage => 8,
        PacketType::Error | PacketType::Close => 1024,
    }
}

/// Which side may send each packet type.
pub open spec fn spec_direction(t: PacketType) -> Direction {
    match t {
        PacketType::ClientHello
        | PacketType::ClientFinish
        | PacketType::AuthResponse
        | PacketType::SendMessage
        | PacketType::RegisterDevice
        | PacketType::QueryAccountStatus
        | PacketType::SendFriendRequest
        | PacketType::FriendRequestDecision
        | PacketType::RemoveFriend
        | PacketType::SendTypingIndicator
        | PacketType::FetchQueuedMessages
        | PacketType::AckQueuedMessage
        | PacketType::DeliveryReceipt
        | PacketType::PublishE2eKey
        | PacketType::FetchE2eKey => Direction::ClientToServer,
        PacketType::ServerHello
        | PacketType::ServerAccept
        | PacketType::AuthChallenge
        | PacketType::AuthAccept
        | PacketType::AuthReject
        | PacketType::DeliverMessage
        | PacketType::RegisterResponse
        | PacketType::AccountStatusResponse
        | PacketType::FriendRequestResult
        | PacketType::IncomingFriendRequest
        | PacketType::RemoveFriendResult
        | PacketType::FriendRemovedNotification
        | PacketType::FriendStatusUpdate
        | PacketType::QueuedMessageDelivery
        | PacketType::MessageStatusUpdate
        | PacketType::PublishE2eKeyResult
        | PacketType::E2eKeyResponse => Direction::ServerToClient,
        PacketType::Ping | PacketType::Pong | PacketType::Close | PacketType::Error => {
            Direction::Bidirectional
        },
    }
}

impl PacketType {
    /// The packet type with wire code `value`, or `UnknownPacketType`.
    pub fn from_u8(value: u8) -> (r: Result<Self, ProtocolError>)
        ensures
            match r {
                Ok(t) => spec_type_code(t) == value,
                Err(e) => !spec_is_type_code(value) && e == ProtocolError::UnknownPacketType(value),
            },
    {
        let r = match value {
            1 => Ok(Self::ClientHello),
            2 => Ok(Self::ServerHello),
            3 => Ok(Self::ClientFinish),
            4 => Ok(Self::ServerAccept),
            5 => Ok(Self::AuthChallenge),
            6 => Ok(Self::AuthResponse),
            7 => Ok(Self::AuthAccept),
            8 => Ok(Self::AuthReject),
            20 => Ok(Self::Ping),
            21 => Ok(Self::Pong),
            22 => Ok(Self::RegisterDevice),
            23 => Ok(Self::RegisterResponse),
            24 => Ok(Self::QueryAccountStatus),
            25 => Ok(Self::AccountStatusResponse),
            26 => Ok(Self::SendFriendRequest),
            27 => Ok(Self::FriendRequestResult),
            28 => Ok(Self::IncomingFriendRequest),
            29 => Ok(Self::FriendRequestDecision),
            30 => Ok(Self::RemoveFriend),
            31 => Ok(Self::RemoveFriendResult),
            32 => Ok(Self::FriendRemovedNotification),
            33 => Ok(Self::FriendStatusUpdate),
            34 => Ok(Self::SendTypingIndicator),
            35 => Ok(Self::PublishE2eKey),
            36 => Ok(Self::PublishE2eKeyResult),
            37 => Ok(Self::FetchE2eKey),
            38 => Ok(Self::E2eKeyResponse),
            40 => Ok(Self::SendMessage),
            41 => Ok(Self::DeliverMessage),
            42 => Ok(Self::FetchQueuedMessages),
            43 => Ok(Self::QueuedMessageDelivery),
            44 => Ok(Self::AckQueuedMessage),
            45 => Ok(Self::MessageStatusUpdate),
            46 => Ok(Self::DeliveryReceipt),
            254 => Ok(Self::Error),
            255 => Ok(Self::Close),
            other => Err(ProtocolError::UnknownPacketType(other)),
        };
        proof {
            if r is Err {
                assert forall|t: PacketType| spec_type_code(t) != value by {
                    match t {
                        _ => {},
                    }
                }
            }
        }
        r
    }

    /// The wire code of this packet type.
    pub fn as_u8(self) -> (r: u8)
        ensures
            r == spec_type_code(self),
    {
        match self {
            Self::ClientHello => 1,
            Self::ServerHello => 2,
            Self::ClientFinish => 3,
            Self::ServerAccept => 4,
            Self::AuthChallenge => 5,
            Self::AuthResponse => 6,
            Self::AuthAccept => 7,
            Self::AuthReject => 8,
            Self::Ping => 20,
            Self::Pong => 21,
            Self::RegisterDevice => 22,
            Self::RegisterResponse => 23,
            Self::QueryAccountStatus => 24,
            Self::AccountStatusResponse => 25,
            Self::SendFriendRequest => 26,
            Self::FriendRequestResult => 27,
            Self::IncomingFriendRequest => 28,
            Self::FriendRequestDecision => 29,
            Self::RemoveFriend => 30,
            Self::RemoveFriendResult => 31,
            Self::FriendRemovedNotification => 32,
            Self::FriendStatusUpdate => 33,
            Self::SendTypingIndicator => 34,
            Self::PublishE2eKey => 35,
            Self::PublishE2eKeyResult => 36,
            Self::FetchE2eKey => 37,
            Self::E2eKeyResponse => 38,
            Self::SendMessage => 40,
            Self::DeliverMessage => 41,
            Self::FetchQueuedMessages => 42,
            Self::QueuedMessageDelivery => 43,
            Self::AckQueuedMessage => 44,
            Self::MessageStatusUpdate => 45,
            Self::DeliveryReceipt => 46,
            Self::Error => 254,
            Self::Close => 255,
        }
    }

    /// The largest plaintext payload this packet type may carry.
    pub fn max_payload_size(self) -> (r: u32)
        ensures
            r == spec_max_payload_size(self),
    {
        match self {
            // client_id + x25519 public key (32 B) + ML-KEM-768 ek (1184 B)
            Self::ClientHello => 1300,
            // server id headroom (80 B) + x25519 public key (32 B) + ML-KEM-768
            // ciphertext (1088 B) + ML-DSA-65 signature (3309 B)
            Self::ServerHello => (32 + ML_KEM_768_CT_SIZE + ML_DSA_65_SIG_SIZE + 80) as u32,
            Self::ClientFinish | Self::ServerAccept => 1,
            // 32-byte nonce
            Self::AuthChallenge => 32,
            // ML-DSA-65 vk + signature + 4-byte prefix + up to 4096-byte attestation
            Self::AuthResponse => (ML_DSA_65_VK_SIZE + ML_DSA_65_SIG_SIZE + 4 + 4096) as u32,
            Self::AuthAccept | Self::AuthReject => 0,
            Self::Ping | Self::Pong => 8,
            Self::SendMessage | Self::DeliverMessage => 65536,
            // 2-byte prefix + up to 128-byte username
            Self::RegisterDevice => 130,
            // success flag + 2-byte prefix + up to 256-byte message
            Self::RegisterResponse => 259,
            Self::QueryAccountStatus => 0,
            // is_banned + 2-byte prefix + up to 256-byte reason + flag + 8-byte expiry
            Self::AccountStatusResponse => 268,
            Self::SendFriendRequest | Self::IncomingFriendRequest => 130,
            Self::FriendRequestResult => 1,
            // 2-byte prefix + up to 128-byte username + accepted flag
            Self::FriendRequestDecision => 131,
            Self::RemoveFriend | Self::FriendRemovedNotification | Self::SendTypingIndicator => 130,
            Self::RemoveFriendResult => 1,
            // 2-byte prefix + up to 128-byte username + status + 8-byte timestamp
            Self::FriendStatusUpdate => 139,
            // x25519 (32 B) + ML-KEM-768 ek (1184 B) + ML-DSA-65 vk (1952 B)
            Self::PublishE2eKey => (32 + ML_KEM_768_EK_SIZE + ML_DSA_65_VK_SIZE) as u32,
            Self::PublishE2eKeyResult => 259,
            Self::FetchE2eKey => 130,
            // username (130 B) + status + key bundle (3168 B)
            Self::E2eKeyResponse => (130 + 1 + 32 + ML_KEM_768_EK_SIZE + ML_DSA_65_VK_SIZE) as u32,
            // 8-byte message id + status
            Self::MessageStatusUpdate => 9,
            Self::DeliveryReceipt => 8,
            Self::FetchQueuedMessages => 0,
            Self::QueuedMessageDelivery => 65536,
            Self::AckQueuedMessage => 8,
            Self::Error | Self::Close => 1024,
        }
    }

    /// Refuses a payload longer than this packet type's ceiling.
    pub fn validate_payload_size(self, payload_len: u32) -> (r: Result<(), ProtocolError>)
        ensures
            payload_len <= spec_max_payload_size(self) ==> r is Ok,
            payload_len > spec_max_payload_size(self) ==> r == Err::<(), ProtocolError>(
                ProtocolError::PayloadTooLarge { size: payload_len, max: spec_max_payload_size(self) },
            ),
    {
        let max = self.max_payload_size();
        if payload_len > max {
            Err(ProtocolError::PayloadTooLarge { size: payload_len, max })
        } else {
            Ok(())
        }
    }

    /// Which side of the connection may send this packet type.
    pub fn direction(self) -> (r: Direction)
        ensures
            r == spec_direction(self),
    {
        match self {
            Self::ClientHello
            | Self::ClientFinish
            | Self::AuthResponse
            | Self::SendMessage
            | Self::RegisterDevice
            | Self::QueryAccountStatus
            | Self::SendFriendRequest
            | Self::FriendRequestDecision
            | Self::RemoveFriend
            | Self::SendTypingIndicator
            | Self::FetchQueuedMessages
            | Self::AckQueuedMessage
            | Self::DeliveryReceipt
            | Self::PublishE2eKey
            | Self::FetchE2eKey => Direction::ClientToServer,
            Self::ServerHello
            | Self::ServerAccept
            | Self::AuthChallenge
            | Self::AuthAccept
            | Self::AuthReject
            | Self::DeliverMessage
            | Self::RegisterResponse
            | Self::AccountStatusResponse
            | Self::FriendRequestResult
            | Self::IncomingFriendRequest
            | Self::RemoveFriendResult
            | Self::FriendRemovedNotification
            | Self::FriendStatusUpdate
            | Self::QueuedMessageDelivery
            | Self::MessageStatusUpdate
            | Self::PublishE2eKeyResult
            | Self::E2eKeyResponse => Direction::ServerToClient,
            Self::Ping | Self::Pong | Self::Close | Self::Error => Direction::Bidirectional,
        }
    }
}

/// Distinct packet types have distinct wire codes, so `from_u8` undoes
/// `as_u8`.
pub proof fn lemma_type_code_injective(a: PacketType, b: PacketType)
    requires
        spec_type_code(a) == spec_type_code(b),
    ensures
        a == b,
{
    match a {
        _ => {
            match b {
                _ => {},
            }
        },
    }
}

/// Every fixed-size payload fits the payload ceiling of its packet type.
pub proof fn lemma_fixed_size_payloads_fit(
    ping: PingPayload,
    pong: PongPayload,
    challenge: AuthChallengePayload,
    finish: ClientFinishPayload,
    accept: ServerAcceptPayload,
    receipt: DeliveryReceiptPayload,
    ack: AckQueuedMessagePayload,
    status: MessageStatusUpdatePayload,
    request_result: FriendRequestResultPayload,
    remove_result: RemoveFriendResultPayload,
    publish: PublishE2eKeyPayload,
)
    ensures
        ping.spec_encoding().len() <= spec_max_payload_size(PacketType::Ping),
        pong.spec_encoding().len() <= spec_max_payload_size(PacketType::Pong),
        challenge.spec_encoding().len() <= spec_max_payload_size(PacketType::AuthChallenge),
        finish.spec_encoding().len() <= spec_max_payload_size(PacketType::ClientFinish),
        accept.spec_encoding().len() <= spec_max_payload_size(PacketType::ServerAccept),
        receipt.spec_encoding().len() <= spec_max_payload_size(PacketType::DeliveryReceipt),
        ack.spec_encoding().len() <= spec_max_payload_size(PacketType::AckQueuedMessage),
        status.spec_encoding().len() <= spec_max_payload_size(PacketType::MessageStatusUpdate),
        request_result.spec_encoding().len() <= spec_max_payload_size(
            PacketType::FriendRequestResult,
        ),
        remove_result.spec_encoding().len() <= spec_max_payload_size(
            PacketType::RemoveFriendResult,
        ),
        publish.spec_encoding().len() <= spec_max_payload_size(PacketType::PublishE2eKey),
{
    lemma_u64_be(ping.timestamp, seq![]);
    lemma_u64_be(pong.timestamp, seq![]);
    lemma_u64_be(receipt.message_id, seq![]);
    lemma_u64_be(ack.queue_id, seq![]);
    lemma_u64_be(status.message_id, seq![]);
}

/// Every payload that carries a username of at most 128 bytes fits the
/// payload ceiling of its packet type.
pub proof fn lemma_username_payloads_fit(
    register: RegisterDevicePayload,
    send_request: SendFriendRequestPayload,
    incoming: IncomingFriendRequestPayload,
    decision: FriendRequestDecisionPayload,
    remove: RemoveFriendPayload,
    removed: FriendRemovedNotificationPayload,
    friend_status: FriendStatusUpdatePayload,
    typing: SendTypingIndicatorPayload,
    fetch_key: FetchE2eKeyPayload,
    key_response: E2eKeyResponsePayload,
)
    requires
        spec_utf8(register.username@).len() <= 128,
        spec_utf8(send_request.target_username@).len() <= 128,
        spec_utf8(incoming.sender_username@).len() <= 128,
        spec_utf8(decision.sender_username@).len() <= 128,
        spec_utf8(remove.friend_username@).len() <= 128,
        spec_utf8(removed.removed_by_username@).len() <= 128,
        spec_utf8(friend_status.friend_username@).len() <= 128,
        spec_utf8(typing.recipient_username@).len() <= 128,
        spec_utf8(fetch_key.target_username@).len() <= 128,
        spec_utf8(key_response.username@).len() <= 128,
    ensures
        register.spec_encoding().len() <= spec_max_payload_size(PacketType::RegisterDevice),
        send_request.spec_encoding().len() <= spec_max_payload_size(
            PacketType::SendFriendRequest,
        ),
        incoming.spec_encoding().len() <= spec_max_payload_size(
            PacketType::IncomingFriendRequest,
        ),
        decision.spec_encoding().len() <= spec_max_payload_size(
            PacketType::FriendRequestDecision,
        ),
        remove.spec_encoding().len() <= spec_max_payload_size(PacketType::RemoveFriend),
        removed.spec_encoding().len() <= spec_max_payload_size(
            PacketType::FriendRemovedNotification,
        ),
        friend_status.spec_encoding().len() <= spec_max_payload_size(
            PacketType::FriendStatusUpdate,
        ),
        typing.spec_encoding().len() <= spec_max_payload_size(PacketType::SendTypingIndicator),
        fetch_key.spec_encoding().len() <= spec_max_payload_size(PacketType::FetchE2eKey),
        key_response.spec_encoding().len() <= spec_max_payload_size(PacketType::E2eKeyResponse),
{
    lemma_sized_string_shape(register.username@);
    lemma_sized_string_shape(send_request.target_username@);
    lemma_sized_string_shape(incoming.sender_username@);
    lemma_sized_string_shape(decision.sender_username@);
    lemma_sized_string_shape(remove.friend_username@);
    lemma_sized_string_shape(removed.removed_by_username@);
    lemma_sized_string_shape(friend_status.friend_username@);
    lemma_sized_string_shape(typing.recipient_username@);
    lemma_sized_string_shape(fetch_key.target_username@);
    lemma_sized_string_shape(key_response.username@);
    lemma_u64_be(friend_status.last_seen, seq![]);
    if key_response.key is Some {
        assert(key_response.key->0.spec_bytes().len() == 3168);
    }
}

/// Payloads with a message or reason of at most 256 bytes, a server hello
/// with a server id of at most 78 bytes and an auth response with an
/// attestation of at most 4096 bytes fit the payload ceilings of their
/// packet types.
pub proof fn lemma_bounded_payloads_fit(
    register_response: RegisterResponsePayload,
    publish_result: PublishE2eKeyResultPayload,
    account: AccountStatusResponsePayload,
    server_hello: ServerHelloPayload,
    auth_response: AuthResponsePayload,
)
    requires
        spec_utf8(register_response.message@).len() <= 256,
        spec_utf8(publish_result.message@).len() <= 256,
        spec_utf8(account.ban_reason@).len() <= 256,
        spec_utf8(server_hello.server_id@).len() <= 78,
        auth_response.attestation_token@.len() <= 4096,
    ensures
        register_response.spec_encoding().len() <= spec_max_payload_size(
            PacketType::RegisterResponse,
        ),
        publish_result.spec_encoding().len() <= spec_max_payload_size(
            PacketType::PublishE2eKeyResult,
        ),
        account.spec_encoding().len() <= spec_max_payload_size(PacketType::AccountStatusResponse),
        server_hello.spec_encoding().len() <= spec_max_payload_size(PacketType::ServerHello),
        auth_response.spec_encoding().len() <= spec_max_payload_size(PacketType::AuthResponse),
{
    lemma_sized_string_shape(register_response.message@);
    lemma_sized_string_shape(publish_result.message@);
    lemma_sized_string_shape(account.ban_reason@);
    lemma_sized_string_shape(server_hello.server_id@);
    lemma_sized_bytes_shape(auth_response.attestation_token@);
    lemma_u64_be(account.subscription_expiry_timestamp, seq![]);
}

/// Each request travels from client to server and the server's answer
/// (or the notification it triggers) from server to client; keepalives
/// and teardown travel both ways.
pub proof fn lemma_requests_and_answers_travel_opposite_ways()
    ensures
        spec_direction(PacketType::ClientHello) == Direction::ClientToServer && spec_direction(
            PacketType::ServerHello,
        ) == Direction::ServerToClient,
        spec_direction(PacketType::ClientFinish) == Direction::ClientToServer && spec_direction(
            PacketType::ServerAccept,
        ) == Direction::ServerToClient,
        spec_direction(PacketType::AuthResponse) == Direction::ClientToServer && spec_direction(
            PacketType::AuthChallenge,
        ) == Direction::ServerToClient,
        spec_direction(PacketType::AuthResponse) == Direction::ClientToServer && spec_direction(
            PacketType::AuthAccept,
        ) == Direction::ServerToClient,
        spec_direction(PacketType::AuthResponse) == Direction::ClientToServer && spec_direction(
            PacketType::AuthReject,
        ) == Direction::ServerToClient,
        spec_direction(PacketType::SendMessage) == Direction::ClientToServer && spec_direction(
            PacketType::DeliverMessage,
        ) == Direction::ServerToClient,
        spec_direction(PacketType::DeliveryReceipt) == Direction::ClientToServer && spec_direction(
            PacketType::MessageStatusUpdate,
        ) == Direction::ServerToClient,
        spec_direction(PacketType::RegisterDevice) == Direction::ClientToServer && spec_direction(
            PacketType::RegisterResponse,
        ) == Direction::ServerToClient,
        spec_direction(PacketType::QueryAccountStatus) == Direction::ClientToServer && spec_direction(
            PacketType::AccountStatusResponse,
        ) == Direction::ServerToClient,
        spec_direction(PacketType::SendFriendRequest) == Direction::ClientToServer && spec_direction(
            PacketType::FriendRequestResult,
        ) == Direction::ServerToClient,
        spec_direction(PacketType::SendFriendRequest) == Direction::ClientToServer && spec_direction(
            PacketType::IncomingFriendRequest,
        ) == Direction::ServerToClient,
        spec_direction(PacketType::FriendRequestDecision) == Direction::ClientToServer && spec_direction(
            PacketType::FriendRequestResult,
        ) == Direction::ServerToClient,
        spec_direction(PacketType::RemoveFriend) == Direction::ClientToServer && spec_direction(
            PacketType::RemoveFriendResult,
        ) == Direction::ServerToClient,
        spec_direction(PacketType::RemoveFriend) == Direction::ClientToServer && spec_direction(
            PacketType::FriendRemovedNotification,
        ) == Direction::ServerToClient,
        spec_direction(PacketType::SendTypingIndicator) == Direction::ClientToServer && spec_direction(
            PacketType::FriendStatusUpdate,
        ) == Direction::ServerToClient,
        spec_direction(PacketType::FetchQueuedMessages) == Direction::ClientToServer && spec_direction(
            PacketType::QueuedMessageDelivery,
        ) == Direction::ServerToClient,
        spec_direction(PacketType::AckQueuedMessage) == Direction::ClientToServer && spec_direction(
            PacketType::QueuedMessageDelivery,
        ) == Direction::ServerToClient,
        spec_direction(PacketType::PublishE2eKey) == Direction::ClientToServer && spec_direction(
            PacketType::PublishE2eKeyResult,
        ) == Direction::ServerToClient,
        spec_direction(PacketType::FetchE2eKey) == Direction::ClientToServer && spec_direction(
            PacketType::E2eKeyResponse,
        ) == Direction::ServerToClient,
        forall|t: PacketType|
            t == PacketType::Ping || t == PacketType::Pong || t == PacketType::Close || t
                == PacketType::Error <==> #[trigger] spec_direction(t) == Direction::Bidirectional,
{
}

} // verus!
