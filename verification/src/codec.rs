//! The per-connection packet codec: header checks, sequence numbers and
//! session-layer AES-256-GCM.
//!
//! Reading a packet is two steps around the transport: `accept_header`
//! takes the 24 header bytes and decides whether the packet is acceptable
//! and how many payload bytes follow; `open_payload` takes those bytes and
//! gives the packet, decrypted when it is sealed. Writing a packet is
//! `seal_frame`, which gives the bytes to send.
//!
//! Call `establish_session` right after the handshake. The key assignment
//! depends on the role:
//!   - client: `establish_session(keys.client_to_server, keys.server_to_client)`
//!   - server: `establish_session(keys.server_to_client, keys.client_to_server)`
use crate::be_bytes::spec_u64_be;
use crate::crypto::e2e::GCM_TAG_LEN;
use crate::crypto::primitives::{
    aes256gcm_open, aes256gcm_seal, spec_aes256gcm_open, spec_aes256gcm_seal, wipe_key,
    AES_GCM_MAX_INPUT,
};
use crate::error::ProtocolError;
use crate::header::{
    flags, PacketHeader, CHATIX_HEADER_LEN, CHATIX_MAGIC, CHATIX_VERSION, MAX_PAYLOAD_LEN,
};
use crate::packet_type::{spec_is_type_code, spec_max_payload_size, spec_type_code, PacketType};
use crate::raw_packet::RawPacket;
use vstd::prelude::*;

verus! {

/// The session keys of one side of a connection.
struct SessionCipher {
    outbound_key: [u8; 32],
    inbound_key: [u8; 32],
}

/// Stateful codec for a single connection: it checks that inbound
/// sequence numbers strictly increase, numbers outbound packets 1, 2, 3,
/// ..., and seals and opens payloads once a session is established.
pub struct PacketCodec {
    last_recv_seq: Option<u64>,
    next_send_seq: u64,
    session: Option<SessionCipher>,
}

/// The 12-byte AES-GCM nonce of a sequence number: four zero bytes, then
/// the sequence number in big-endian order.
pub open spec fn spec_seq_nonce(seq: u64) -> Seq<u8> {
    seq![0u8, 0u8, 0u8, 0u8] + spec_u64_be(seq)
}

/// The associated data bound into a sealed payload: the packet type and
/// flags bytes of its header, so relabeling either breaks the tag.
pub open spec fn spec_header_aad(packet_type: u8, flags: u8) -> Seq<u8> {
    seq![packet_type, flags]
}

/// The packet type with wire code `code`.
pub open spec fn spec_type_of_code(code: u8) -> PacketType {
    choose|t: PacketType| spec_type_code(t) == code
}

/// The largest payload a header of type `t` may announce: the type's
/// plaintext limit, plus the GCM tag when the payload is sealed.
pub open spec fn spec_max_for(t: PacketType, encrypted: bool) -> u32 {
    let m = spec_max_payload_size(t);
    if !encrypted {
        m
    } else if m + 16 > u32::MAX {
        u32::MAX
    } else {
        (m + 16) as u32
    }
}

/// The verdict on an incoming header, given the last accepted sequence
/// number and whether a session is established. The checks run in this
/// order: the header's own validity, encryption once a session exists,
/// a known packet type, the type's payload limit, a strictly increasing
/// sequence number.
pub open spec fn spec_check_header(
    h: PacketHeader,
    last_recv_seq: Option<u64>,
    established: bool,
) -> Result<(), ProtocolError> {
    if h.spec_validate() is Err {
        h.spec_validate()
    } else if established && !h.spec_is_encrypted() {
        Err(ProtocolError::EncryptionRequired)
    } else if !spec_is_type_code(h.packet_type) {
        Err(ProtocolError::UnknownPacketType(h.packet_type))
    } else if h.payload_len > spec_max_for(
        spec_type_of_code(h.packet_type),
        h.spec_is_encrypted(),
    ) {
        Err(
            ProtocolError::PayloadTooLarge {
                size: h.payload_len,
                max: spec_max_for(spec_type_of_code(h.packet_type), h.spec_is_encrypted()),
            },
        )
    } else {
        match last_recv_seq {
            Some(last) => if h.sequence <= last {
                Err(ProtocolError::SequenceViolation { got: h.sequence, last })
            } else {
                Ok(())
            },
            None => Ok(()),
        }
    }
}

/// What the payload of an accepted header becomes: unchanged when the
/// header is not encrypted; otherwise opened with the inbound key under
/// the sequence-number nonce and the header's associated data, the
/// header's length corrected to the plaintext's. Refused with
/// `CryptoError` without a session or when the tag does not verify.
pub open spec fn spec_open_payload(
    keys: Option<(Seq<u8>, Seq<u8>)>,
    h: PacketHeader,
    payload: Seq<u8>,
) -> Result<(PacketHeader, Seq<u8>), ProtocolError> {
    if !h.spec_is_encrypted() {
        Ok((h, payload))
    } else {
        match keys {
            None => Err(ProtocolError::CryptoError),
            Some((_outbound, inbound)) => match spec_aes256gcm_open(
                inbound,
                spec_seq_nonce(h.sequence),
                spec_header_aad(h.packet_type, h.flags),
                payload,
            ) {
                None => Err(ProtocolError::CryptoError),
                Some(plain) => Ok((PacketHeader { payload_len: plain.len() as u32, ..h }, plain)),
            },
        }
    }
}

/// The header `seal_frame` writes.
pub open spec fn spec_frame_header(
    packet_type: u8,
    flags: u8,
    payload_len: u32,
    sequence: u64,
) -> PacketHeader {
    PacketHeader {
        magic: CHATIX_MAGIC,
        version: CHATIX_VERSION,
        packet_type,
        flags,
        header_len: CHATIX_HEADER_LEN,
        payload_len,
        sequence,
        reserved: 0,
    }
}

/// `frame` is the packet `seal_frame` sends for `plaintext` under sequence
/// number `sequence`: without a session the header (with the caller's
/// flags) and the plaintext; with one, the header with `ENCRYPTED` set and
/// the AES-256-GCM sealing of the plaintext under the outbound key, which
/// opens again to the plaintext.
pub open spec fn spec_sealed_frame(
    frame: Seq<u8>,
    keys: Option<(Seq<u8>, Seq<u8>)>,
    packet_type: u8,
    flags: u8,
    plaintext: Seq<u8>,
    sequence: u64,
) -> bool {
    match keys {
        None => frame == spec_frame_header(
            packet_type,
            flags,
            plaintext.len() as u32,
            sequence,
        ).spec_bytes() + plaintext,
        Some((outbound, _inbound)) => {
            let f = flags | flags::ENCRYPTED;
            let nonce = spec_seq_nonce(sequence);
            let aad = spec_header_aad(packet_type, f);
            let body = spec_aes256gcm_seal(outbound, nonce, aad, plaintext);
            &&& body.len() == plaintext.len() + 16
            &&& spec_aes256gcm_open(outbound, nonce, aad, body) == Some(plaintext)
            &&& frame == spec_frame_header(packet_type, f, body.len() as u32, sequence).spec_bytes()
                + body
        },
    }
}

/// The AES-GCM nonce of a sequence number.
fn seq_nonce(seq: u64) -> (n: [u8; 12])
    ensures
        n@ == spec_seq_nonce(seq),
{
    let n: [u8; 12] = [
        0u8,
        0u8,
        0u8,
        0u8,
        (seq >> 56u64) as u8,
        (seq >> 48u64) as u8,
        (seq >> 40u64) as u8,
        (seq >> 32u64) as u8,
        (seq >> 24u64) as u8,
        (seq >> 16u64) as u8,
        (seq >> 8u64) as u8,
        seq as u8,
    ];
    assert(n@ =~= spec_seq_nonce(seq));
    n
}

/// The associated data of a sealed payload.
fn header_aad(packet_type: u8, flags: u8) -> (a: [u8; 2])
    ensures
        a@ == spec_header_aad(packet_type, flags),
{
    let a: [u8; 2] = [packet_type, flags];
    assert(a@ =~= spec_header_aad(packet_type, flags));
    a
}

impl PacketCodec {
    /// The last accepted inbound sequence number, if any.
    pub closed spec fn spec_last_recv_seq(&self) -> Option<u64> {
        self.last_recv_seq
    }

    /// The sequence number the next outbound packet gets.
    pub closed spec fn spec_next_send_seq(&self) -> u64 {
        self.next_send_seq
    }

    /// The session's (outbound, inbound) keys, once established.
    pub closed spec fn spec_keys(&self) -> Option<(Seq<u8>, Seq<u8>)> {
        match self.session {
            Some(c) => Some((c.outbound_key@, c.inbound_key@)),
            None => None,
        }
    }

    /// A codec with no session, expecting any first sequence number and
    /// numbering its own packets from 1.
    pub fn new() -> (c: Self)
        ensures
            c.spec_last_recv_seq() is None,
            c.spec_next_send_seq() == 1,
            c.spec_keys() is None,
    {
        Self { last_recv_seq: None, next_send_seq: 1, session: None }
    }

    /// Activates session-layer encryption: `outbound_key` seals what this
    /// side sends, `inbound_key` opens what it receives. Keys of an earlier
    /// session are overwritten with zeros first.
    pub fn establish_session(&mut self, outbound_key: [u8; 32], inbound_key: [u8; 32])
        ensures
            final(self).spec_keys() == Some((outbound_key@, inbound_key@)),
            final(self).spec_last_recv_seq() == old(self).spec_last_recv_seq(),
            final(self).spec_next_send_seq() == old(self).spec_next_send_seq(),
    {
        match &mut self.session {
            Some(old_cipher) => {
                wipe_key(&mut old_cipher.outbound_key);
                wipe_key(&mut old_cipher.inbound_key);
            },
            None => {},
        }
        self.session = Some(SessionCipher { outbound_key, inbound_key });
    }

    /// Accepts `seq` only when it is above the last accepted one, and
    /// then remembers it.
    fn validate_sequence(&mut self, seq: u64) -> (r: Result<(), ProtocolError>)
        ensures
            match old(self).last_recv_seq {
                Some(last) => if seq <= last {
                    r == Err::<(), ProtocolError>(
                        ProtocolError::SequenceViolation { got: seq, last },
                    )
                } else {
                    r is Ok
                },
                None => r is Ok,
            },
            r is Ok ==> final(self).last_recv_seq == Some(seq),
            r is Err ==> final(self).last_recv_seq == old(self).last_recv_seq,
            final(self).next_send_seq == old(self).next_send_seq,
            final(self).session == old(self).session,
    {
        if let Some(last) = self.last_recv_seq {
            if seq <= last {
                return Err(ProtocolError::SequenceViolation { got: seq, last });
            }
        }
        self.last_recv_seq = Some(seq);
        Ok(())
    }

    /// Decides on the 24 header bytes of an incoming packet. On success the
    /// header's sequence number becomes the last accepted one, and the
    /// header's `payload_len` says how many payload bytes follow.
    pub fn accept_header(&mut self, header_bytes: [u8; 24]) -> (r: Result<
        PacketHeader,
        ProtocolError,
    >)
        ensures
            ({
                let h = PacketHeader::spec_parse(header_bytes@);
                let verdict = spec_check_header(
                    h,
                    old(self).spec_last_recv_seq(),
                    old(self).spec_keys() is Some,
                );
                match r {
                    Ok(g) => g == h && verdict is Ok && final(self).spec_last_recv_seq() == Some(
                        h.sequence,
                    ),
                    Err(e) => verdict == Err::<(), ProtocolError>(e)
                        && final(self).spec_last_recv_seq() == old(self).spec_last_recv_seq(),
                }
            }),
            final(self).spec_next_send_seq() == old(self).spec_next_send_seq(),
            final(self).spec_keys() == old(self).spec_keys(),
    {
        let header = PacketHeader::from_bytes(header_bytes);
        match header.validate() {
            Ok(()) => {},
            Err(e) => {
                return Err(e);
            },
        }
        if self.session.is_some() && !header.is_encrypted() {
            return Err(ProtocolError::EncryptionRequired);
        }
        let packet_type = match PacketType::from_u8(header.packet_type) {
            Ok(t) => t,
            Err(e) => {
                return Err(e);
            },
        };
        proof {
            crate::packet_type::lemma_type_code_injective(
                packet_type,
                spec_type_of_code(header.packet_type),
            );
        }
        let max_for_type = if header.is_encrypted() {
            packet_type.max_payload_size().saturating_add(GCM_TAG_LEN as u32)
        } else {
            packet_type.max_payload_size()
        };
        if header.payload_len > max_for_type {
            return Err(ProtocolError::PayloadTooLarge { size: header.payload_len, max: max_for_type });
        }
        match self.validate_sequence(header.sequence) {
            Ok(()) => {},
            Err(e) => {
                return Err(e);
            },
        }
        Ok(header)
    }

    /// Turns the payload bytes of an accepted header into the packet:
    /// unchanged when the header is not encrypted, else opened with the
    /// inbound key, the header's length corrected to the plaintext's.
    pub fn open_payload(&self, header: PacketHeader, payload: Vec<u8>) -> (r: Result<
        RawPacket,
        ProtocolError,
    >)
        ensures
            match spec_open_payload(self.spec_keys(), header, payload@) {
                Ok((h, plain)) => r matches Ok(p) && p.header == h && p.payload@ == plain,
                Err(e) => r == Err::<RawPacket, ProtocolError>(e),
            },
    {
        if !header.is_encrypted() {
            return Ok(RawPacket::new(header, payload));
        }
        let cipher = match &self.session {
            Some(c) => c,
            None => {
                return Err(ProtocolError::CryptoError);
            },
        };
        let nonce = seq_nonce(header.sequence);
        let aad = header_aad(header.packet_type, header.flags);
        match aes256gcm_open(&cipher.inbound_key, &nonce, aad.as_slice(), payload) {
            Some(plain) => {
                let mut h = header;
                h.payload_len = plain.len() as u32;
                Ok(RawPacket::new(h, plain))
            },
            None => Err(ProtocolError::CryptoError),
        }
    }

    /// Frames an outbound packet under the next sequence number: the 24
    /// header bytes followed by the payload, sealed with the outbound key
    /// (and `ENCRYPTED` set in the flags) once a session is established.
    /// Fails with `CryptoError` when the sequence numbers are exhausted,
    /// leaving the codec unchanged, or when sealing fails, after the
    /// sequence number was used up.
    pub fn seal_frame(&mut self, packet_type: PacketType, flags: u8, payload: Vec<u8>) -> (r:
        Result<Vec<u8>, ProtocolError>)
        ensures
            match r {
                Ok(frame) => {
                    &&& old(self).spec_next_send_seq() < u64::MAX
                    &&& final(self).spec_next_send_seq() == old(self).spec_next_send_seq() + 1
                    &&& spec_sealed_frame(
                        frame@,
                        old(self).spec_keys(),
                        spec_type_code(packet_type),
                        flags,
                        payload@,
                        old(self).spec_next_send_seq(),
                    )
                },
                Err(e) => {
                    &&& e == ProtocolError::CryptoError
                    &&& old(self).spec_next_send_seq() == u64::MAX ==> final(self).spec_next_send_seq()
                        == old(self).spec_next_send_seq()
                    &&& old(self).spec_next_send_seq() < u64::MAX ==> old(self).spec_keys() is Some
                        && final(self).spec_next_send_seq() == old(self).spec_next_send_seq() + 1
                },
            },
            old(self).spec_next_send_seq() < u64::MAX && old(self).spec_keys() is None ==> r is Ok,
            old(self).spec_next_send_seq() < u64::MAX && payload@.len() <= AES_GCM_MAX_INPUT ==> r is Ok,
            final(self).spec_last_recv_seq() == old(self).spec_last_recv_seq(),
            final(self).spec_keys() == old(self).spec_keys(),
    {
        let seq = self.next_send_seq;
        self.next_send_seq = match self.next_send_seq.checked_add(1) {
            Some(n) => n,
            None => {
                return Err(ProtocolError::CryptoError);
            },
        };
        let code = packet_type.as_u8();
        let ghost caller_flags = flags;
        let mut flags = flags;
        let mut body = payload;
        let ghost plaintext = body@;
        if let Some(cipher) = &self.session {
            flags = flags | flags::ENCRYPTED;
            let nonce = seq_nonce(seq);
            let aad = header_aad(code, flags);
            body = match aes256gcm_seal(&cipher.outbound_key, &nonce, aad.as_slice(), body) {
                Some(c) => c,
                None => {
                    return Err(ProtocolError::CryptoError);
                },
            };
        }
        let header = PacketHeader::new(code, flags, body.len() as u32, seq);
        let mut frame: Vec<u8> = Vec::new();
        frame.extend_from_slice(header.to_bytes().as_slice());
        frame.extend_from_slice(body.as_slice());
        proof {
            assert(header.magic =~= CHATIX_MAGIC);
            assert(header == spec_frame_header(code, flags, body@.len() as u32, seq));
            assert(frame@ =~= header.spec_bytes() + body@);
            if self.session is None {
                assert(flags == caller_flags);
                assert(body@ == plaintext);
            }
        }
        Ok(frame)
    }
}

impl Default for PacketCodec {
    fn default() -> (c: Self)
        ensures
            c.spec_last_recv_seq() is None,
            c.spec_next_send_seq() == 1,
            c.spec_keys() is None,
    {
        Self::new()
    }
}

/// The header a frame starts with is read back as the header it was
/// written with, and such a header is well formed with a known type.
proof fn lemma_frame_header_reads_back(
    frame: Seq<u8>,
    t: PacketType,
    flags: u8,
    payload_len: u32,
    sequence: u64,
    body: Seq<u8>,
)
    requires
        frame == spec_frame_header(spec_type_code(t), flags, payload_len, sequence).spec_bytes()
            + body,
        payload_len <= MAX_PAYLOAD_LEN,
    ensures
        PacketHeader::spec_parse(frame.subrange(0, 24)) == spec_frame_header(
            spec_type_code(t),
            flags,
            payload_len,
            sequence,
        ),
        frame.subrange(24, frame.len() as int) == body,
        spec_frame_header(spec_type_code(t), flags, payload_len, sequence).spec_validate() is Ok,
        spec_is_type_code(spec_type_code(t)),
        spec_type_of_code(spec_type_code(t)) == t,
{
    let h = spec_frame_header(spec_type_code(t), flags, payload_len, sequence);
    crate::header::lemma_header_bytes_len(h);
    assert(frame.subrange(0, 24) =~= h.spec_bytes());
    assert(frame.subrange(24, frame.len() as int) =~= body);
    let g = PacketHeader::spec_parse(frame.subrange(0, 24));
    crate::header::lemma_header_bytes_injective(g, h);
    assert(h.magic@ =~= crate::header::spec_magic());
    assert(spec_is_type_code(spec_type_code(t)));
    crate::packet_type::lemma_type_code_injective(t, spec_type_of_code(spec_type_code(t)));
}

/// Session round trip: a frame that `seal_frame` produced with outbound
/// key `key` is accepted by a receiver whose inbound key is `key` and
/// whose last accepted sequence number is below the frame's, and its
/// payload opens to the original plaintext under the header the sender
/// wrote, with `ENCRYPTED` set and the plaintext's length. It holds for
/// every plaintext within its packet type's limit whose sealed form fits
/// the global payload cap.
pub proof fn lemma_sealed_frame_opens(
    frame: Seq<u8>,
    key: Seq<u8>,
    sender_inbound_key: Seq<u8>,
    receiver_outbound_key: Seq<u8>,
    receiver_last_seq: Option<u64>,
    t: PacketType,
    flags: u8,
    plaintext: Seq<u8>,
    sequence: u64,
)
    requires
        spec_sealed_frame(
            frame,
            Some((key, sender_inbound_key)),
            spec_type_code(t),
            flags,
            plaintext,
            sequence,
        ),
        plaintext.len() <= spec_max_payload_size(t),
        plaintext.len() + GCM_TAG_LEN <= MAX_PAYLOAD_LEN,
        receiver_last_seq matches Some(last) ==> last < sequence,
    ensures
        ({
            let h = PacketHeader::spec_parse(frame.subrange(0, 24));
            &&& h == spec_frame_header(
                spec_type_code(t),
                flags | flags::ENCRYPTED,
                (plaintext.len() + GCM_TAG_LEN) as u32,
                sequence,
            )
            &&& h.payload_len == frame.len() - 24
            &&& spec_check_header(h, receiver_last_seq, true) is Ok
            &&& spec_open_payload(
                Some((receiver_outbound_key, key)),
                h,
                frame.subrange(24, frame.len() as int),
            ) == Ok::<(PacketHeader, Seq<u8>), ProtocolError>(
                (
                    spec_frame_header(
                        spec_type_code(t),
                        flags | flags::ENCRYPTED,
                        plaintext.len() as u32,
                        sequence,
                    ),
                    plaintext,
                ),
            )
        }),
{
    let code = spec_type_code(t);
    let f = flags | flags::ENCRYPTED;
    let nonce = spec_seq_nonce(sequence);
    let aad = spec_header_aad(code, f);
    let body = spec_aes256gcm_seal(key, nonce, aad, plaintext);
    let len = body.len() as u32;
    lemma_frame_header_reads_back(frame, t, f, len, sequence, body);
    let h = PacketHeader::spec_parse(frame.subrange(0, 24));
    crate::header::lemma_header_bytes_len(h);
    assert(f & 1u8 != 0) by (bit_vector)
        requires
            f == flags | 1u8,
    ;
    assert(h.spec_is_encrypted());
    assert(spec_max_payload_size(t) <= MAX_PAYLOAD_LEN);
}

/// Plaintext round trip: without a session on either side, a frame that
/// `seal_frame` produced (with flags that leave `ENCRYPTED` clear) is
/// accepted by a receiver whose last accepted sequence number is below the
/// frame's, and its payload is the original one, unchanged, under the
/// header the sender wrote.
pub proof fn lemma_plain_frame_reads(
    frame: Seq<u8>,
    receiver_last_seq: Option<u64>,
    t: PacketType,
    flags: u8,
    payload: Seq<u8>,
    sequence: u64,
)
    requires
        spec_sealed_frame(frame, None, spec_type_code(t), flags, payload, sequence),
        flags & flags::ENCRYPTED == 0,
        payload.len() <= spec_max_payload_size(t),
        receiver_last_seq matches Some(last) ==> last < sequence,
    ensures
        ({
            let h = PacketHeader::spec_parse(frame.subrange(0, 24));
            &&& h == spec_frame_header(spec_type_code(t), flags, payload.len() as u32, sequence)
            &&& h.payload_len == frame.len() - 24
            &&& spec_check_header(h, receiver_last_seq, false) is Ok
            &&& spec_open_payload(None, h, frame.subrange(24, frame.len() as int)) == Ok::<
                (PacketHeader, Seq<u8>),
                ProtocolError,
            >((h, payload))
        }),
{
    assert(spec_max_payload_size(t) <= MAX_PAYLOAD_LEN);
    lemma_frame_header_reads_back(
        frame,
        t,
        flags,
        payload.len() as u32,
        sequence,
        payload,
    );
    let h = PacketHeader::spec_parse(frame.subrange(0, 24));
    crate::header::lemma_header_bytes_len(h);
}

/// Inbound sequence numbers strictly increase: once `last` was accepted,
/// a header is accepted only with a sequence number above `last`, and a
/// header that would otherwise be accepted is refused with
/// `SequenceViolation` when its sequence number is not above `last`, so a
/// replayed packet is always refused.
pub proof fn lemma_accepted_sequences_increase(h: PacketHeader, last: u64, established: bool)
    ensures
        spec_check_header(h, Some(last), established) is Ok ==> h.sequence > last,
        spec_check_header(h, None, established) is Ok && h.sequence <= last ==> spec_check_header(
            h,
            Some(last),
            established,
        ) == Err::<(), ProtocolError>(ProtocolError::SequenceViolation { got: h.sequence, last }),
        spec_check_header(h, None, established) is Ok && h.sequence > last ==> spec_check_header(
            h,
            Some(last),
            established,
        ) is Ok,
{
}

/// A queued message delivery is in the same size class as a live message
/// delivery: a header of type 43 (`QueuedMessageDelivery`) gets exactly
/// the verdict the same header of type 41 (`DeliverMessage`) gets, and its
/// payload may be up to 65536 bytes in the clear (plus the tag when
/// sealed).
pub proof fn lemma_queued_delivery_size_class(
    h: PacketHeader,
    last_recv_seq: Option<u64>,
    established: bool,
)
    requires
        h.packet_type == 43,
    ensures
        spec_check_header(h, last_recv_seq, established) == spec_check_header(
            PacketHeader { packet_type: 41, ..h },
            last_recv_seq,
            established,
        ),
        h.spec_validate() is Ok && !established && !h.spec_is_encrypted() && h.payload_len <= 65536
            && last_recv_seq is None ==> spec_check_header(h, last_recv_seq, established) is Ok,
        h.spec_validate() is Ok && h.spec_is_encrypted() && h.payload_len <= 65536 + 16
            && last_recv_seq is None ==> spec_check_header(h, last_recv_seq, established) is Ok,
{
    let d = PacketHeader { packet_type: 41, ..h };
    assert(spec_type_code(PacketType::QueuedMessageDelivery) == 43);
    assert(spec_type_code(PacketType::DeliverMessage) == 41);
    crate::packet_type::lemma_type_code_injective(
        PacketType::QueuedMessageDelivery,
        spec_type_of_code(43),
    );
    crate::packet_type::lemma_type_code_injective(PacketType::DeliverMessage, spec_type_of_code(41));
    assert(d.spec_validate() == h.spec_validate());
    assert(d.spec_is_encrypted() == h.spec_is_encrypted());
}

} // verus!
