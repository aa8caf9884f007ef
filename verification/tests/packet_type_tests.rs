use chatix_protocol::error::ProtocolError;
use chatix_protocol::packet_type::{Direction, PacketType};

#[test]
fn every_known_code_roundtrips() {
    let mut known = 0;
    for code in 0u8..=255 {
        match PacketType::from_u8(code) {
            Ok(t) => {
                known += 1;
                assert_eq!(t.as_u8(), code);
            }
            Err(e) => assert!(matches!(e, ProtocolError::UnknownPacketType(c) if c == code)),
        }
    }
    assert_eq!(known, 36);
}

#[test]
fn payload_limits_match_the_wire_layouts() {
    assert_eq!(PacketType::Ping.max_payload_size(), 8);
    assert_eq!(PacketType::ServerHello.max_payload_size(), 32 + 1088 + 3309 + 80);
    assert_eq!(PacketType::AuthResponse.max_payload_size(), 1952 + 3309 + 4 + 4096);
    assert_eq!(PacketType::PublishE2eKey.max_payload_size(), 3168);
    assert_eq!(PacketType::E2eKeyResponse.max_payload_size(), 3299);
    assert_eq!(PacketType::SendMessage.max_payload_size(), 65536);
}

#[test]
fn validate_payload_size_refuses_above_the_limit() {
    assert!(PacketType::Ping.validate_payload_size(8).is_ok());
    assert!(matches!(
        PacketType::Ping.validate_payload_size(9),
        Err(ProtocolError::PayloadTooLarge { size: 9, max: 8 })
    ));
}

#[test]
fn directions_follow_the_sender() {
    assert_eq!(PacketType::ClientHello.direction(), Direction::ClientToServer);
    assert_eq!(PacketType::ServerHello.direction(), Direction::ServerToClient);
    assert_eq!(PacketType::Ping.direction(), Direction::Bidirectional);
    assert_eq!(PacketType::DeliveryReceipt.direction(), Direction::ClientToServer);
    assert_eq!(PacketType::MessageStatusUpdate.direction(), Direction::ServerToClient);
}
