use chatix_protocol::error::ProtocolError;
use chatix_protocol::header::{flags, PacketHeader, CHATIX_HEADER_SIZE, MAX_PAYLOAD_LEN};

#[test]
fn header_roundtrip() {
    // 0b0000_0010 stands in for one of the currently unused flag bits.
    let header = PacketHeader::new(10, flags::ENCRYPTED | 0b0000_0010, 128, 42);
    let bytes = header.to_bytes();
    let decoded = PacketHeader::from_bytes(bytes);
    assert_eq!(header, decoded);
}

#[test]
fn header_validation_ok() {
    let header = PacketHeader::new(1, 0, 64, 1);
    assert!(header.validate().is_ok());
}

#[test]
fn header_validation_invalid_magic() {
    let mut header = PacketHeader::new(1, 0, 64, 1);
    header.magic = *b"NOPE";
    assert!(header.validate().is_err());
}

#[test]
fn header_validation_invalid_version() {
    let mut header = PacketHeader::new(1, 0, 64, 1);
    header.version = 99;
    assert!(header.validate().is_err());
}

#[test]
fn header_validation_payload_too_large() {
    let header = PacketHeader::new(1, 0, MAX_PAYLOAD_LEN + 1, 1);
    assert!(header.validate().is_err());
}

#[test]
fn header_validation_reserved_nonzero() {
    let mut header = PacketHeader::new(1, 0, 64, 1);
    header.reserved = 1;
    assert!(header.validate().is_err());
}

#[test]
fn header_wire_layout_is_big_endian() {
    let header = PacketHeader::new(0x14, 0x01, 0x0102_0304, 0x0506_0708_090a_0b0c);
    let bytes = header.to_bytes();
    assert_eq!(bytes.len(), CHATIX_HEADER_SIZE);
    assert_eq!(
        bytes,
        [
            b'C', b'H', b'T', b'X', 1, 0x14, 0x01, 24, 1, 2, 3, 4, 5, 6, 7, 8, 9, 10, 11, 12, 0, 0,
            0, 0
        ]
    );
}

#[test]
fn header_validation_reports_each_error_variant() {
    let mut h = PacketHeader::new(1, 0, 64, 1);
    h.magic = *b"NOPE";
    assert!(matches!(h.validate(), Err(ProtocolError::InvalidMagic)));

    let mut h = PacketHeader::new(1, 0, 64, 1);
    h.version = 99;
    assert!(matches!(h.validate(), Err(ProtocolError::UnsupportedVersion(99))));

    let mut h = PacketHeader::new(1, 0, 64, 1);
    h.header_len = 23;
    assert!(matches!(h.validate(), Err(ProtocolError::InvalidHeaderLength)));

    let h = PacketHeader::new(1, 0, MAX_PAYLOAD_LEN + 1, 1);
    assert!(matches!(
        h.validate(),
        Err(ProtocolError::PayloadTooLarge { size, max }) if size == MAX_PAYLOAD_LEN + 1 && max == MAX_PAYLOAD_LEN
    ));

    let mut h = PacketHeader::new(1, 0, 64, 1);
    h.reserved = 1;
    assert!(matches!(h.validate(), Err(ProtocolError::ReservedFieldNonZero)));

    // The payload cap itself is allowed.
    assert!(PacketHeader::new(1, 0, MAX_PAYLOAD_LEN, 1).validate().is_ok());
}

#[test]
fn header_from_any_bytes_roundtrips() {
    let mut bytes = [0u8; CHATIX_HEADER_SIZE];
    for (i, b) in bytes.iter_mut().enumerate() {
        *b = (i as u8).wrapping_mul(37).wrapping_add(5);
    }
    let h = PacketHeader::from_bytes(bytes);
    assert_eq!(h.to_bytes(), bytes);
}

#[test]
fn is_encrypted_reads_only_the_encrypted_bit() {
    assert!(PacketHeader::new(1, flags::ENCRYPTED, 0, 1).is_encrypted());
    assert!(PacketHeader::new(1, 0xff, 0, 1).is_encrypted());
    assert!(!PacketHeader::new(1, 0xfe, 0, 1).is_encrypted());
    assert!(!PacketHeader::new(1, 0, 0, 1).is_encrypted());
}
