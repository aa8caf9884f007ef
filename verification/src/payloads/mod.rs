//! Payload codecs for every packet type.

pub mod common;

pub use common::PayloadError;
pub mod error_payloads;
pub use error_payloads::ErrorPayload;
pub mod ping_payloads;
pub use ping_payloads::{PingPayload, PongPayload};
pub mod message_payloads;
pub use message_payloads::{
    DeliverMessagePayload, DeliveryReceiptPayload, MessageStatus, MessageStatusUpdatePayload,
    SendMessagePayload,
};
pub mod registration_payloads;
pub use registration_payloads::{RegisterDevicePayload, RegisterResponsePayload};
pub mod queue_payloads;
pub use queue_payloads::{
    AckQueuedMessagePayload, FetchQueuedMessagesPayload, QueuedMessageDeliveryPayload,
};
pub mod account_payloads;
pub use account_payloads::{AccountStatusResponsePayload, QueryAccountStatusPayload};
pub mod close_payloads;
pub mod subscription_payloads;
pub use close_payloads::{ClosePayload, CloseReason};
pub use subscription_payloads::{QuerySubscriptionStatusPayload, SubscriptionStatusResponsePayload};
pub mod friend_payloads;
pub use friend_payloads::{
    FriendRemovedNotificationPayload, FriendRequestDecisionPayload, FriendRequestResultPayload,
    FriendRequestStatus, FriendStatus, FriendStatusUpdatePayload, IncomingFriendRequestPayload,
    RemoveFriendPayload, RemoveFriendResultPayload, RemoveFriendStatus, SendFriendRequestPayload,
    SendTypingIndicatorPayload,
};
pub mod hello_payloads;
pub use hello_payloads::{
    ClientFinishPayload, ClientHelloPayload, ServerAcceptPayload, ServerHelloPayload,
};
pub mod auth_payloads;
pub use auth_payloads::{
    AuthAcceptPayload, AuthChallengePayload, AuthRejectPayload, AuthResponsePayload,
};
pub mod e2e_key_payloads;
pub use e2e_key_payloads::{
    E2eKeyResponsePayload, E2eKeyStatus, FetchE2eKeyPayload, PublishE2eKeyPayload,
    PublishE2eKeyResultPayload,
};
