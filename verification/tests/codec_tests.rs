use chatix_protocol::codec::PacketCodec;
use chatix_protocol::error::ProtocolError;
use chatix_protocol::header::{flags, PacketHeader, CHATIX_HEADER_LEN, CHATIX_HEADER_SIZE};
use chatix_protocol::packet_type::PacketType;
use chatix_protocol::raw_packet::RawPacket;

/// Hand-builds a raw (unencrypted) frame: header and payload bytes.
fn raw_frame(packet_type: u8, payload_len: u32, seq: u64) -> Vec<u8> {
    let header = PacketHeader::new(packet_type, 0, payload_len, seq);
    let mut bytes = header.to_bytes().to_vec();
    bytes.extend(std::iter::repeat(0xAA).take(payload_len as usize));
    bytes
}

/// Reads one packet from the front of `wire` the way a transport does:
/// the header first, then exactly the announced number of payload bytes.
fn read_frame(codec: &mut PacketCodec, wire: &[u8]) -> Result<RawPacket, ProtocolError> {
    let mut header_bytes = [0u8; CHATIX_HEADER_SIZE];
    header_bytes.copy_from_slice(&wire[..CHATIX_HEADER_SIZE]);
    let header = codec.accept_header(header_bytes)?;
    let end = CHATIX_HEADER_SIZE + header.payload_len as usize;
    let payload = wire[CHATIX_HEADER_SIZE..end].to_vec();
    codec.open_payload(header, payload)
}

/// A pair of distinct 32-byte keys standing in for a derived session.
fn sample_session_keys() -> ([u8; 32], [u8; 32]) {
    ([0x11u8; 32], [0x22u8; 32])
}

#[test]
fn rejects_oversized_payload_for_packet_type() {
    // Ping allows 8 bytes, far below the global cap.
    let oversized = CHATIX_HEADER_LEN as u32;
    let frame = raw_frame(PacketType::Ping.as_u8(), oversized, 1);
    let mut codec = PacketCodec::new();

    let result = read_frame(&mut codec, &frame);
    assert!(matches!(result, Err(ProtocolError::PayloadTooLarge { .. })));
}

#[test]
fn accepts_payload_within_packet_type_limit() {
    let frame = raw_frame(PacketType::Ping.as_u8(), 8, 1);
    let mut codec = PacketCodec::new();

    let packet = read_frame(&mut codec, &frame).unwrap();
    assert_eq!(packet.header.payload_len, 8);
}

#[test]
fn encrypted_roundtrip_succeeds() {
    let (key_a, key_b) = sample_session_keys();

    let mut sender = PacketCodec::new();
    sender.establish_session(key_a, key_b);

    let plaintext = b"PINGDATA".to_vec(); // 8 bytes: Ping's plaintext limit
    let wire_bytes = sender.seal_frame(PacketType::Ping, 0, plaintext.clone()).unwrap();

    // The receiver's inbound key must be the sender's outbound key.
    let mut receiver = PacketCodec::new();
    receiver.establish_session(key_b, key_a);

    let packet = read_frame(&mut receiver, &wire_bytes).unwrap();

    assert!(packet.header.is_encrypted());
    assert_eq!(packet.payload, plaintext);
}

#[test]
fn rejects_unencrypted_packet_once_session_established() {
    let (key_a, key_b) = sample_session_keys();
    let mut receiver = PacketCodec::new();
    receiver.establish_session(key_b, key_a);

    let injected = raw_frame(PacketType::Ping.as_u8(), 8, 1); // flags = 0
    let result = read_frame(&mut receiver, &injected);
    assert!(matches!(result, Err(ProtocolError::EncryptionRequired)));
}

#[test]
fn rejects_packet_with_tampered_packet_type_after_encryption() {
    // DeliveryReceipt and AckQueuedMessage both carry 8 plaintext bytes,
    // so relabeling one as the other must break the tag.
    let (key_a, key_b) = sample_session_keys();

    let mut sender = PacketCodec::new();
    sender.establish_session(key_a, key_b);

    let mut wire_bytes = sender.seal_frame(PacketType::DeliveryReceipt, 0, vec![0u8; 8]).unwrap();

    // Byte 5 of the header is the packet type.
    wire_bytes[5] = PacketType::AckQueuedMessage.as_u8();

    let mut receiver = PacketCodec::new();
    receiver.establish_session(key_b, key_a);

    let result = read_frame(&mut receiver, &wire_bytes);
    assert!(matches!(result, Err(ProtocolError::CryptoError)));
}

#[test]
fn plaintext_roundtrip_keeps_header_and_payload() {
    let mut sender = PacketCodec::default();
    let frame = sender.seal_frame(PacketType::Ping, 0, vec![1, 2, 3, 4, 5, 6, 7, 8]).unwrap();
    assert_eq!(frame.len(), CHATIX_HEADER_SIZE + 8);
    let mut receiver = PacketCodec::new();
    let packet = read_frame(&mut receiver, &frame).unwrap();
    assert_eq!(packet.header, PacketHeader::new(PacketType::Ping.as_u8(), 0, 8, 1));
    assert_eq!(packet.payload, vec![1, 2, 3, 4, 5, 6, 7, 8]);
}

#[test]
fn sealed_frame_sets_encrypted_flag_and_tag() {
    let (key_a, key_b) = sample_session_keys();
    let mut sender = PacketCodec::new();
    sender.establish_session(key_a, key_b);
    let frame = sender.seal_frame(PacketType::Ping, 0b10, b"PINGDATA".to_vec()).unwrap();
    let mut header_bytes = [0u8; CHATIX_HEADER_SIZE];
    header_bytes.copy_from_slice(&frame[..CHATIX_HEADER_SIZE]);
    let header = PacketHeader::from_bytes(header_bytes);
    assert_eq!(header.flags, 0b10 | flags::ENCRYPTED);
    assert_eq!(header.payload_len, 8 + 16);
    assert_eq!(header.sequence, 1);
    assert_ne!(&frame[CHATIX_HEADER_SIZE..CHATIX_HEADER_SIZE + 8], b"PINGDATA");

    let mut receiver = PacketCodec::new();
    receiver.establish_session(key_b, key_a);
    let packet = read_frame(&mut receiver, &frame).unwrap();
    // The header seen by the caller carries the plaintext length.
    assert_eq!(packet.header.payload_len, 8);
    assert_eq!(packet.header.flags, 0b10 | flags::ENCRYPTED);
}

#[test]
fn outbound_sequence_numbers_count_up_from_one() {
    let mut sender = PacketCodec::new();
    for expected in 1u64..=3 {
        let frame = sender.seal_frame(PacketType::Ping, 0, vec![0u8; 8]).unwrap();
        let mut header_bytes = [0u8; CHATIX_HEADER_SIZE];
        header_bytes.copy_from_slice(&frame[..CHATIX_HEADER_SIZE]);
        assert_eq!(PacketHeader::from_bytes(header_bytes).sequence, expected);
    }
}

#[test]
fn replayed_or_reordered_sequence_is_rejected() {
    let mut receiver = PacketCodec::new();
    assert!(read_frame(&mut receiver, &raw_frame(PacketType::Ping.as_u8(), 8, 5)).is_ok());
    let replay = read_frame(&mut receiver, &raw_frame(PacketType::Ping.as_u8(), 8, 5));
    assert!(matches!(replay, Err(ProtocolError::SequenceViolation { got: 5, last: 5 })));
    let older = read_frame(&mut receiver, &raw_frame(PacketType::Ping.as_u8(), 8, 4));
    assert!(matches!(older, Err(ProtocolError::SequenceViolation { got: 4, last: 5 })));
    // Gaps are fine: only strict increase is required.
    assert!(read_frame(&mut receiver, &raw_frame(PacketType::Ping.as_u8(), 8, 9)).is_ok());
}

#[test]
fn refused_header_does_not_consume_a_sequence_number() {
    let mut receiver = PacketCodec::new();
    let bad = raw_frame(PacketType::Ping.as_u8(), 9, 7);
    assert!(read_frame(&mut receiver, &bad).is_err());
    assert!(read_frame(&mut receiver, &raw_frame(PacketType::Ping.as_u8(), 8, 7)).is_ok());
}

#[test]
fn unknown_packet_type_is_rejected() {
    let mut receiver = PacketCodec::new();
    let frame = raw_frame(9, 0, 1);
    assert!(matches!(read_frame(&mut receiver, &frame), Err(ProtocolError::UnknownPacketType(9))));
}

#[test]
fn invalid_header_is_rejected_before_anything_else() {
    let mut receiver = PacketCodec::new();
    let mut frame = raw_frame(PacketType::Ping.as_u8(), 8, 1);
    frame[0] = b'X';
    assert!(matches!(read_frame(&mut receiver, &frame), Err(ProtocolError::InvalidMagic)));
}

#[test]
fn encrypted_packet_without_session_is_a_crypto_error() {
    let mut receiver = PacketCodec::new();
    let header = PacketHeader::new(PacketType::Ping.as_u8(), flags::ENCRYPTED, 24, 1);
    let mut frame = header.to_bytes().to_vec();
    frame.extend_from_slice(&[0u8; 24]);
    assert!(matches!(read_frame(&mut receiver, &frame), Err(ProtocolError::CryptoError)));
}

#[test]
fn encrypted_payload_limit_allows_the_tag() {
    let mut receiver = PacketCodec::new();
    receiver.establish_session([1u8; 32], [2u8; 32]);
    let over = PacketHeader::new(PacketType::Ping.as_u8(), flags::ENCRYPTED, 8 + 16 + 1, 1);
    assert!(matches!(
        receiver.accept_header(over.to_bytes()),
        Err(ProtocolError::PayloadTooLarge { size: 25, max: 24 })
    ));
    let fits = PacketHeader::new(PacketType::Ping.as_u8(), flags::ENCRYPTED, 8 + 16, 2);
    assert!(receiver.accept_header(fits.to_bytes()).is_ok());
}

#[test]
fn wrong_session_key_is_a_crypto_error() {
    let mut sender = PacketCodec::new();
    sender.establish_session([1u8; 32], [2u8; 32]);
    let frame = sender.seal_frame(PacketType::Ping, 0, vec![0u8; 8]).unwrap();
    let mut receiver = PacketCodec::new();
    receiver.establish_session([2u8; 32], [3u8; 32]);
    assert!(matches!(read_frame(&mut receiver, &frame), Err(ProtocolError::CryptoError)));
}

#[test]
fn raw_packet_new_keeps_its_parts() {
    let h = PacketHeader::new(20, 0, 3, 9);
    let p = RawPacket::new(h, vec![1, 2, 3]);
    assert_eq!(p.header, h);
    assert_eq!(p.payload, vec![1, 2, 3]);
}

#[test]
fn reestablishing_a_session_switches_keys() {
    let mut sender = PacketCodec::new();
    sender.establish_session([1u8; 32], [2u8; 32]);
    sender.establish_session([3u8; 32], [4u8; 32]);
    let frame = sender.seal_frame(PacketType::Ping, 0, vec![0u8; 8]).unwrap();
    let mut receiver = PacketCodec::new();
    receiver.establish_session([4u8; 32], [3u8; 32]);
    assert_eq!(read_frame(&mut receiver, &frame).unwrap().payload, vec![0u8; 8]);
}
