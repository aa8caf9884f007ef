//! The fixed 24-byte packet header.
use crate::be_bytes::{
    lemma_u32_be, lemma_u64_be, push_u32_be, push_u64_be, read_u32_be, read_u64_be, spec_u32_be,
    spec_u64_be,
};
use crate::error::ProtocolError;
use vstd::prelude::*;

pub mod flags;

verus! {

/// The protocol magic, `"CHTX"`.
pub const CHATIX_MAGIC: [u8; 4] = [67u8, 72u8, 84u8, 88u8];

/// The protocol version this crate speaks.
pub const CHATIX_VERSION: u8 = 1u8;

/// The header length, as carried in the header itself.
pub const CHATIX_HEADER_LEN: u8 = 24u8;

/// The header length in bytes.
pub const CHATIX_HEADER_SIZE: usize = 24usize;

/// The global cap on a payload's length (1 MiB).
pub const MAX_PAYLOAD_LEN: u32 = 1048576u32;

/// A packet header, as it travels in the clear in front of every payload.
#[derive(Debug, Clone, Copy, PartialEq, Eq)]
pub struct PacketHeader {
    pub magic: [u8; 4],
    pub version: u8,
    pub packet_type: u8,
    pub flags: u8,
    pub header_len: u8,
    pub payload_len: u32,
    pub sequence: u64,
    pub reserved: u32,
}

/// The protocol magic as a byte sequence.
pub open spec fn spec_magic() -> Seq<u8> {
    seq![67u8, 72u8, 84u8, 88u8]
}

impl PacketHeader {
    /// The wire form of the header: magic, version, packet type, flags,
    /// header length, then payload length, sequence and reserved field in
    /// big-endian order.
    pub open spec fn spec_bytes(self) -> Seq<u8> {
        self.magic@ + seq![self.version, self.packet_type, self.flags, self.header_len]
            + spec_u32_be(self.payload_len) + spec_u64_be(self.sequence) + spec_u32_be(
            self.reserved,
        )
    }

    /// The outcome of `validate`: the first check that fails, in the order
    /// magic, version, header length, payload length, reserved field.
    pub open spec fn spec_validate(self) -> Result<(), ProtocolError> {
        if self.magic@ != spec_magic() {
            Err(ProtocolError::InvalidMagic)
        } else if self.version != CHATIX_VERSION {
            Err(ProtocolError::UnsupportedVersion(self.version))
        } else if self.header_len != CHATIX_HEADER_LEN {
            Err(ProtocolError::InvalidHeaderLength)
        } else if self.payload_len > MAX_PAYLOAD_LEN {
            Err(ProtocolError::PayloadTooLarge { size: self.payload_len, max: MAX_PAYLOAD_LEN })
        } else if self.reserved != 0 {
            Err(ProtocolError::ReservedFieldNonZero)
        } else {
            Ok(())
        }
    }

    /// The header whose wire form is `bytes` (24 bytes).
    pub open spec fn spec_parse(bytes: Seq<u8>) -> PacketHeader {
        choose|h: PacketHeader| h.spec_bytes() == bytes
    }

    /// Whether the `ENCRYPTED` flag bit is set.
    pub open spec fn spec_is_encrypted(self) -> bool {
        self.flags & flags::ENCRYPTED != 0
    }

    /// A header for the current protocol version with the given fields.
    pub fn new(packet_type: u8, flags: u8, payload_len: u32, sequence: u64) -> (h: Self)
        ensures
            h.magic@ == spec_magic(),
            h.version == CHATIX_VERSION,
            h.packet_type == packet_type,
            h.flags == flags,
            h.header_len == CHATIX_HEADER_LEN,
            h.payload_len == payload_len,
            h.sequence == sequence,
            h.reserved == 0,
    {
        let h = Self {
            magic: CHATIX_MAGIC,
            version: CHATIX_VERSION,
            packet_type,
            flags,
            header_len: CHATIX_HEADER_LEN,
            payload_len,
            sequence,
            reserved: 0,
        };
        assert(h.magic@ =~= spec_magic());
        h
    }

    /// Serializes the header into its 24 wire bytes.
    pub fn to_bytes(&self) -> (out: [u8; 24])
        ensures
            out@ == self.spec_bytes(),
    {
        let mut v: Vec<u8> = Vec::with_capacity(24);
        v.push(self.magic[0]);
        v.push(self.magic[1]);
        v.push(self.magic[2]);
        v.push(self.magic[3]);
        v.push(self.version);
        v.push(self.packet_type);
        v.push(self.flags);
        v.push(self.header_len);
        push_u32_be(&mut v, self.payload_len);
        push_u64_be(&mut v, self.sequence);
        push_u32_be(&mut v, self.reserved);
        assert(v@ =~= self.spec_bytes());
        let mut out = [0u8; 24];
        let mut i: usize = 0;
        while i < 24
            invariant
                i <= 24,
                v@.len() == 24,
                forall|j: int| 0 <= j < i ==> out@[j] == v@[j],
            decreases 24 - i,
        {
            out[i] = v[i];
            i = i + 1;
        }
        assert(out@ =~= v@);
        out
    }

    /// Parses 24 wire bytes into a header. Every byte string is the wire
    /// form of exactly one header; `validate` decides whether it is
    /// acceptable.
    pub fn from_bytes(bytes: [u8; 24]) -> (h: Self)
        ensures
            h.spec_bytes() == bytes@,
            h == Self::spec_parse(bytes@),
    {
        let s: &[u8] = bytes.as_slice();
        let h = Self {
            magic: [bytes[0], bytes[1], bytes[2], bytes[3]],
            version: bytes[4],
            packet_type: bytes[5],
            flags: bytes[6],
            header_len: bytes[7],
            payload_len: read_u32_be(s, 8),
            sequence: read_u64_be(s, 12),
            reserved: read_u32_be(s, 20),
        };
        proof {
            lemma_u32_be(h.payload_len, bytes@.subrange(8, 12));
            lemma_u64_be(h.sequence, bytes@.subrange(12, 20));
            lemma_u32_be(h.reserved, bytes@.subrange(20, 24));
            assert(h.spec_bytes() =~= bytes@);
            let g = Self::spec_parse(bytes@);
            lemma_header_bytes_injective(g, h);
        }
        h
    }

    /// Checks magic, version, header length, the global payload cap and
    /// the reserved field, reporting the first that is wrong.
    pub fn validate(&self) -> (r: Result<(), ProtocolError>)
        ensures
            r == self.spec_validate(),
    {
        if !(self.magic[0] == 67u8 && self.magic[1] == 72u8 && self.magic[2] == 84u8
            && self.magic[3] == 88u8) {
            proof {
                if self.magic@ == spec_magic() {
                    assert(self.magic@[0] == 67u8);
                }
            }
            return Err(ProtocolError::InvalidMagic);
        }
        assert(self.magic@ =~= spec_magic());
        if self.version != CHATIX_VERSION {
            return Err(ProtocolError::UnsupportedVersion(self.version));
        }
        if self.header_len != CHATIX_HEADER_LEN {
            return Err(ProtocolError::InvalidHeaderLength);
        }
        if self.payload_len > MAX_PAYLOAD_LEN {
            return Err(ProtocolError::PayloadTooLarge { size: self.payload_len, max: MAX_PAYLOAD_LEN });
        }
        if self.reserved != 0 {
            return Err(ProtocolError::ReservedFieldNonZero);
        }
        Ok(())
    }

    /// Whether the payload is sealed with the session key.
    pub fn is_encrypted(&self) -> (r: bool)
        ensures
            r == self.spec_is_encrypted(),
    {
        (self.flags & flags::ENCRYPTED) != 0
    }
}

/// Header serialization is a bijection between headers and 24-byte
/// strings: two headers with the same wire form are the same header, so
/// `from_bytes(h.to_bytes()) == h`.
pub proof fn lemma_header_bytes_injective(a: PacketHeader, b: PacketHeader)
    requires
        a.spec_bytes() == b.spec_bytes(),
    ensures
        a == b,
{
    let s = a.spec_bytes();
    lemma_u32_be(a.payload_len, s);
    lemma_u32_be(b.payload_len, s);
    lemma_u64_be(a.sequence, s);
    lemma_u64_be(b.sequence, s);
    lemma_u32_be(a.reserved, s);
    lemma_u32_be(b.reserved, s);
    assert(s.subrange(8, 12) == spec_u32_be(a.payload_len));
    assert(b.spec_bytes().subrange(8, 12) == spec_u32_be(b.payload_len));
    assert(s.subrange(12, 20) == spec_u64_be(a.sequence));
    assert(b.spec_bytes().subrange(12, 20) == spec_u64_be(b.sequence));
    assert(s.subrange(20, 24) == spec_u32_be(a.reserved));
    assert(b.spec_bytes().subrange(20, 24) == spec_u32_be(b.reserved));
    assert(a.magic@ =~= s.subrange(0, 4));
    assert(b.magic@ =~= s.subrange(0, 4));
    assert(a.magic =~= b.magic);
    assert(spec_u32_be(a.payload_len) == spec_u32_be(b.payload_len));
    assert(a.payload_len == b.payload_len);
    assert(spec_u64_be(a.sequence) == spec_u64_be(b.sequence));
    assert(a.sequence == b.sequence);
    assert(spec_u32_be(a.reserved) == spec_u32_be(b.reserved));
    assert(a.reserved == b.reserved);
    assert(a.version == s[4] && b.version == s[4]);
    assert(a.packet_type == s[5] && b.packet_type == s[5]);
    assert(a.flags == s[6] && b.flags == s[6]);
    assert(a.header_len == s[7] && b.header_len == s[7]);
}

/// Every header has a 24-byte wire form.
pub proof fn lemma_header_bytes_len(h: PacketHeader)
    ensures
        h.spec_bytes().len() == 24,
{
    lemma_u32_be(h.payload_len, seq![]);
    lemma_u64_be(h.sequence, seq![]);
    lemma_u32_be(h.reserved, seq![]);
}

} // verus!
