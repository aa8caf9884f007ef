use chatix_protocol::connection_state::{ConnectionState, Role};
use chatix_protocol::error::ProtocolError;
use chatix_protocol::packet_type::PacketType;

#[test]
fn handshake_happy_path() {
    let s = ConnectionState::initial(Role::Server);
    assert!(s.validate_incoming(Role::Server, PacketType::ClientHello).is_ok());
    let s = s.advance(PacketType::ClientHello);
    assert_eq!(s, ConnectionState::AwaitingClientFinish);

    assert!(s.validate_incoming(Role::Server, PacketType::ClientFinish).is_ok());
    let s = s.advance(PacketType::ClientFinish);
    assert_eq!(s, ConnectionState::AwaitingAuth);

    assert!(s.validate_incoming(Role::Server, PacketType::AuthResponse).is_ok());
    let s = s.advance(PacketType::AuthResponse);
    assert_eq!(s, ConnectionState::Established);
}

#[test]
fn client_handshake_happy_path() {
    let s = ConnectionState::initial(Role::Client);
    assert_eq!(s, ConnectionState::AwaitingServerHello);

    assert!(s.validate_incoming(Role::Client, PacketType::ServerHello).is_ok());
    let s = s.advance(PacketType::ServerHello);
    assert_eq!(s, ConnectionState::AwaitingServerAccept);

    assert!(s.validate_incoming(Role::Client, PacketType::ServerAccept).is_ok());
    let s = s.advance(PacketType::ServerAccept);
    assert_eq!(s, ConnectionState::AwaitingAuthChallenge);

    assert!(s.validate_incoming(Role::Client, PacketType::AuthChallenge).is_ok());
    let s = s.advance(PacketType::AuthChallenge);
    assert_eq!(s, ConnectionState::AwaitingAuthResult);

    assert!(s.validate_incoming(Role::Client, PacketType::AuthAccept).is_ok());
    let s = s.advance(PacketType::AuthAccept);
    assert_eq!(s, ConnectionState::Established);
}

#[test]
fn client_closes_on_auth_reject() {
    let s = ConnectionState::AwaitingAuthResult;
    assert!(s.validate_incoming(Role::Client, PacketType::AuthReject).is_ok());
    let s = s.advance(PacketType::AuthReject);
    assert_eq!(s, ConnectionState::Closing);
}

#[test]
fn rejects_message_before_handshake() {
    let s = ConnectionState::AwaitingClientHello;
    assert!(s.validate_incoming(Role::Server, PacketType::SendMessage).is_err());
}

#[test]
fn rejects_message_before_auth() {
    let s = ConnectionState::AwaitingAuth;
    assert!(s.validate_incoming(Role::Server, PacketType::SendMessage).is_err());
    assert!(s.validate_incoming(Role::Server, PacketType::Ping).is_err());
}

#[test]
fn allows_delivery_tracking_packets_once_established() {
    let s = ConnectionState::Established;
    // Wrong direction: a server never receives this.
    assert!(s.validate_incoming(Role::Server, PacketType::MessageStatusUpdate).is_err());
    assert!(s.validate_incoming(Role::Client, PacketType::MessageStatusUpdate).is_ok());
    assert!(s.validate_incoming(Role::Server, PacketType::DeliveryReceipt).is_ok());
}

#[test]
fn error_packet_always_closes() {
    let s = ConnectionState::Established;
    let s = s.advance(PacketType::Error);
    assert_eq!(s, ConnectionState::Closing);
}

#[test]
fn closing_rejects_all() {
    let s = ConnectionState::Closing;
    assert!(s.validate_incoming(Role::Server, PacketType::Ping).is_err());
    assert!(s.validate_incoming(Role::Server, PacketType::Close).is_err());
}

#[test]
fn server_rejects_server_to_client_packet_while_established() {
    let s = ConnectionState::Established;
    assert!(s.validate_incoming(Role::Server, PacketType::DeliverMessage).is_err());
}

#[test]
fn client_rejects_client_to_server_packet_while_established() {
    let s = ConnectionState::Established;
    assert!(s.validate_incoming(Role::Client, PacketType::SendMessage).is_err());
}

#[test]
fn both_roles_accept_bidirectional_packets_while_established() {
    let s = ConnectionState::Established;
    assert!(s.validate_incoming(Role::Server, PacketType::Ping).is_ok());
    assert!(s.validate_incoming(Role::Client, PacketType::Ping).is_ok());
    assert!(s.validate_incoming(Role::Server, PacketType::Close).is_ok());
    assert!(s.validate_incoming(Role::Client, PacketType::Close).is_ok());
}

#[test]
fn refusals_are_invalid_state_transitions() {
    let r = ConnectionState::AwaitingClientHello.validate_incoming(Role::Server, PacketType::Ping);
    assert!(matches!(r, Err(ProtocolError::InvalidStateTransition)));
}

#[test]
fn error_and_close_close_from_every_state() {
    let states = [
        ConnectionState::AwaitingClientHello,
        ConnectionState::AwaitingClientFinish,
        ConnectionState::AwaitingAuth,
        ConnectionState::AwaitingServerHello,
        ConnectionState::AwaitingServerAccept,
        ConnectionState::AwaitingAuthChallenge,
        ConnectionState::AwaitingAuthResult,
        ConnectionState::Established,
        ConnectionState::Closing,
    ];
    for s in states {
        assert_eq!(s.advance(PacketType::Error), ConnectionState::Closing);
        assert_eq!(s.advance(PacketType::Close), ConnectionState::Closing);
    }
}

#[test]
fn closing_accepts_nothing_for_either_role() {
    for code in 0u8..=255 {
        if let Ok(t) = PacketType::from_u8(code) {
            assert!(ConnectionState::Closing.validate_incoming(Role::Server, t).is_err());
            assert!(ConnectionState::Closing.validate_incoming(Role::Client, t).is_err());
        }
    }
}
