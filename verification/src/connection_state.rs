//! The role-aware connection state machine.
use crate::error::ProtocolError;
use crate::packet_type::{spec_direction, spec_type_code, Direction, PacketType};
use vstd::prelude::*;

verus! {

/// Which end of the connection a state machine tracks. The handshake is
/// asymmetric, so the two roles wait on different messages before they
/// meet in `Established`.
#[derive(Debug, Clone, Copy, PartialEq, Eq, Structural)]
pub enum Role {
    Client,
    Server,
}

/// What a connection is waiting for.
#[derive(Debug, Clone, Copy, PartialEq, Eq, Structural)]
pub enum ConnectionState {
    // Server side of the handshake: what the server waits to receive.
    AwaitingClientHello,
    AwaitingClientFinish,
    AwaitingAuth,
    // Client side of the handshake: what the client waits to receive.
    AwaitingServerHello,
    AwaitingServerAccept,
    AwaitingAuthChallenge,
    AwaitingAuthResult,
    Established,
    Closing,
}

/// Whether a role may ever receive a packet type: never one that only
/// the role itself sends.
pub open spec fn spec_direction_allowed(role: Role, t: PacketType) -> bool {
    match role {
        Role::Client => spec_direction(t) != Direction::ClientToServer,
        Role::Server => spec_direction(t) != Direction::ServerToClient,
    }
}

/// The packet types each state accepts, regardless of direction.
pub open spec fn spec_phase_allowed(s: ConnectionState, t: PacketType) -> bool {
    match s {
        ConnectionState::AwaitingClientHello => t == PacketType::ClientHello,
        ConnectionState::AwaitingClientFinish => t == PacketType::ClientFinish || t
            == PacketType::Error,
        ConnectionState::AwaitingAuth => t == PacketType::AuthResponse || t == PacketType::Error,
        ConnectionState::AwaitingServerHello => t == PacketType::ServerHello || t
            == PacketType::Error,
        ConnectionState::AwaitingServerAccept => t == PacketType::ServerAccept || t
            == PacketType::Error,
        ConnectionState::AwaitingAuthChallenge => t == PacketType::AuthChallenge || t
            == PacketType::Error,
        ConnectionState::AwaitingAuthResult => t == PacketType::AuthAccept || t
            == PacketType::AuthReject || t == PacketType::Error,
        ConnectionState::Established => !(t == PacketType::ClientHello || t
            == PacketType::ServerHello || t == PacketType::ClientFinish || t
            == PacketType::ServerAccept || t == PacketType::AuthChallenge || t
            == PacketType::AuthResponse || t == PacketType::AuthAccept || t
            == PacketType::AuthReject),
        ConnectionState::Closing => false,
    }
}

/// Whether a packet type may arrive in a state for a role.
pub open spec fn spec_accepts(s: ConnectionState, role: Role, t: PacketType) -> bool {
    spec_direction_allowed(role, t) && spec_phase_allowed(s, t)
}

/// The state after receiving a packet type.
pub open spec fn spec_advance(s: ConnectionState, t: PacketType) -> ConnectionState {
    match (s, t) {
        (ConnectionState::AwaitingClientHello, PacketType::ClientHello) => {
            ConnectionState::AwaitingClientFinish
        },
        (ConnectionState::AwaitingClientFinish, PacketType::ClientFinish) => {
            ConnectionState::AwaitingAuth
        },
        (ConnectionState::AwaitingAuth, PacketType::AuthResponse) => ConnectionState::Established,
        (ConnectionState::AwaitingServerHello, PacketType::ServerHello) => {
            ConnectionState::AwaitingServerAccept
        },
        (ConnectionState::AwaitingServerAccept, PacketType::ServerAccept) => {
            ConnectionState::AwaitingAuthChallenge
        },
        (ConnectionState::AwaitingAuthChallenge, PacketType::AuthChallenge) => {
            ConnectionState::AwaitingAuthResult
        },
        (ConnectionState::AwaitingAuthResult, PacketType::AuthAccept) => {
            ConnectionState::Established
        },
        (ConnectionState::AwaitingAuthResult, PacketType::AuthReject) => ConnectionState::Closing,
        (_, PacketType::Close) => ConnectionState::Closing,
        (_, PacketType::Error) => ConnectionState::Closing,
        (state, _) => state,
    }
}

/// The states a role's connection can be in.
pub open spec fn spec_role_state(role: Role, s: ConnectionState) -> bool {
    match role {
        Role::Server => s == ConnectionState::AwaitingClientHello || s
            == ConnectionState::AwaitingClientFinish || s == ConnectionState::AwaitingAuth || s
            == ConnectionState::Established || s == ConnectionState::Closing,
        Role::Client => s == ConnectionState::AwaitingServerHello || s
            == ConnectionState::AwaitingServerAccept || s == ConnectionState::AwaitingAuthChallenge
            || s == ConnectionState::AwaitingAuthResult || s == ConnectionState::Established || s
            == ConnectionState::Closing,
    }
}

impl ConnectionState {
    /// The state a fresh connection starts in.
    pub fn initial(role: Role) -> (s: Self)
        ensures
            role == Role::Server ==> s == ConnectionState::AwaitingClientHello,
            role == Role::Client ==> s == ConnectionState::AwaitingServerHello,
    {
        match role {
            Role::Server => Self::AwaitingClientHello,
            Role::Client => Self::AwaitingServerHello,
        }
    }

    /// Refuses a packet type that is out of phase, or that this role could
    /// never legitimately receive.
    pub fn validate_incoming(self, role: Role, packet_type: PacketType) -> (r: Result<
        (),
        ProtocolError,
    >)
        ensures
            spec_accepts(self, role, packet_type) ==> r is Ok,
            !spec_accepts(self, role, packet_type) ==> r == Err::<(), ProtocolError>(
                ProtocolError::InvalidStateTransition,
            ),
    {
        let direction_allowed = match (role, packet_type.direction()) {
            (Role::Client, Direction::ServerToClient) => true,
            (Role::Client, Direction::Bidirectional) => true,
            (Role::Server, Direction::ClientToServer) => true,
            (Role::Server, Direction::Bidirectional) => true,
            _ => false,
        };
        if !direction_allowed {
            return Err(ProtocolError::InvalidStateTransition);
        }
        let allowed = match self {
            Self::AwaitingClientHello => matches!(packet_type, PacketType::ClientHello),
            Self::AwaitingClientFinish => matches!(
                packet_type,
                PacketType::ClientFinish | PacketType::Error
            ),
            // Only the auth response is accepted before identity is proven.
            Self::AwaitingAuth => matches!(packet_type, PacketType::AuthResponse | PacketType::Error),
            Self::AwaitingServerHello => matches!(
                packet_type,
                PacketType::ServerHello | PacketType::Error
            ),
            Self::AwaitingServerAccept => matches!(
                packet_type,
                PacketType::ServerAccept | PacketType::Error
            ),
            Self::AwaitingAuthChallenge => matches!(
                packet_type,
                PacketType::AuthChallenge | PacketType::Error
            ),
            Self::AwaitingAuthResult => matches!(
                packet_type,
                PacketType::AuthAccept | PacketType::AuthReject | PacketType::Error
            ),
            Self::Established => matches!(
                packet_type,
                PacketType::Ping
                    | PacketType::Pong
                    | PacketType::SendMessage
                    | PacketType::DeliverMessage
                    | PacketType::MessageStatusUpdate
                    | PacketType::DeliveryReceipt
                    | PacketType::RegisterDevice
                    | PacketType::RegisterResponse
                    | PacketType::QueryAccountStatus
                    | PacketType::AccountStatusResponse
                    | PacketType::FetchQueuedMessages
                    | PacketType::QueuedMessageDelivery
                    | PacketType::AckQueuedMessage
                    | PacketType::SendFriendRequest
                    | PacketType::FriendRequestResult
                    | PacketType::IncomingFriendRequest
                    | PacketType::FriendRequestDecision
                    | PacketType::RemoveFriend
                    | PacketType::RemoveFriendResult
                    | PacketType::FriendRemovedNotification
                    | PacketType::FriendStatusUpdate
                    | PacketType::SendTypingIndicator
                    | PacketType::PublishE2eKey
                    | PacketType::PublishE2eKeyResult
                    | PacketType::FetchE2eKey
                    | PacketType::E2eKeyResponse
                    | PacketType::Close
                    | PacketType::Error
            ),
            // No valid incoming packets once closing.
            Self::Closing => false,
        };
        if allowed {
            Ok(())
        } else {
            Err(ProtocolError::InvalidStateTransition)
        }
    }

    /// The state after receiving `packet_type`; call only after
    /// `validate_incoming` accepted it.
    pub fn advance(self, packet_type: PacketType) -> (s: Self)
        ensures
            s == spec_advance(self, packet_type),
    {
        match (self, packet_type) {
            (Self::AwaitingClientHello, PacketType::ClientHello) => Self::AwaitingClientFinish,
            (Self::AwaitingClientFinish, PacketType::ClientFinish) => Self::AwaitingAuth,
            (Self::AwaitingAuth, PacketType::AuthResponse) => Self::Established,
            (Self::AwaitingServerHello, PacketType::ServerHello) => Self::AwaitingServerAccept,
            (Self::AwaitingServerAccept, PacketType::ServerAccept) => Self::AwaitingAuthChallenge,
            (Self::AwaitingAuthChallenge, PacketType::AuthChallenge) => Self::AwaitingAuthResult,
            // The client sees accept and reject as distinct packet types, so
            // it resolves the outcome itself.
            (Self::AwaitingAuthResult, PacketType::AuthAccept) => Self::Established,
            (Self::AwaitingAuthResult, PacketType::AuthReject) => Self::Closing,
            // Any Error or Close packet moves to Closing.
            (_, PacketType::Close) => Self::Closing,
            (_, PacketType::Error) => Self::Closing,
            (state, _) => state,
        }
    }
}

/// A closing connection accepts no packet at all.
pub proof fn lemma_closing_accepts_nothing(role: Role, t: PacketType)
    ensures
        !spec_accepts(ConnectionState::Closing, role, t),
{
}

/// An `Error` or `Close` packet moves any state to `Closing`.
pub proof fn lemma_error_or_close_closes(s: ConnectionState, t: PacketType)
    requires
        t == PacketType::Error || t == PacketType::Close,
    ensures
        spec_advance(s, t) == ConnectionState::Closing,
{
}

/// A role only ever accepts packet types the other side (or either side)
/// may send.
pub proof fn lemma_accepts_respects_direction(s: ConnectionState, role: Role, t: PacketType)
    requires
        spec_accepts(s, role, t),
    ensures
        role == Role::Client ==> spec_direction(t) != Direction::ClientToServer,
        role == Role::Server ==> spec_direction(t) != Direction::ServerToClient,
{
}

/// Application traffic (`SendMessage`, `DeliverMessage`) is only ever
/// accepted once the connection is established.
pub proof fn lemma_messages_need_established(s: ConnectionState, role: Role, t: PacketType)
    requires
        t == PacketType::SendMessage || t == PacketType::DeliverMessage,
        spec_accepts(s, role, t),
    ensures
        s == ConnectionState::Established,
{
}

/// Every role starts in one of its own states, and accepting a packet and
/// advancing keeps it among them: a server never ends up in a client
/// handshake state, nor the reverse.
pub proof fn lemma_role_states_closed(role: Role, s: ConnectionState, t: PacketType)
    requires
        spec_role_state(role, s),
        spec_accepts(s, role, t),
    ensures
        spec_role_state(role, spec_advance(s, t)),
        spec_role_state(
            role,
            if role == Role::Server {
                ConnectionState::AwaitingClientHello
            } else {
                ConnectionState::AwaitingServerHello
            },
        ),
{
}

/// Once established, a connection accepts every packet type outside the
/// handshake (the handshake and authentication types have wire codes 1 to
/// 8, all others 20 and up) that the role may receive, and no handshake
/// type.
pub proof fn lemma_established_accepts_application_traffic(role: Role, t: PacketType)
    ensures
        spec_type_code(t) >= 20 && (role == Role::Server ==> spec_direction(t)
            != Direction::ServerToClient) && (role == Role::Client ==> spec_direction(t)
            != Direction::ClientToServer) ==> spec_accepts(ConnectionState::Established, role, t),
        spec_type_code(t) < 20 ==> !spec_accepts(ConnectionState::Established, role, t),
{
}

/// An established connection stays established on every packet but
/// `Close` and `Error`.
pub proof fn lemma_established_stays_established(t: PacketType)
    requires
        t != PacketType::Close,
        t != PacketType::Error,
    ensures
        spec_advance(ConnectionState::Established, t) == ConnectionState::Established,
{
}

/// A handshake state moves on only on the packet it waits for (or on
/// `Close`/`Error`): any other packet leaves it unchanged.
pub proof fn lemma_handshake_waits_for_its_packet(s: ConnectionState, t: PacketType)
    requires
        t != PacketType::Close,
        t != PacketType::Error,
        !spec_phase_allowed(s, t),
    ensures
        spec_advance(s, t) == s,
{
}

} // verus!
