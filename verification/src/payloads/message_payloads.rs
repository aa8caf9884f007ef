//! Message sending, delivery and delivery tracking payloads.
use crate::be_bytes::{lemma_u64_be, push_u64_be, read_u64_be, spec_u64_be};
use crate::payloads::common::{
    invalid_data_count, invalid_data_named, invalid_data,
    decode_exact_u64, decode_string_then_bytes, encode_sized_bytes, encode_sized_string,
    lemma_split_at, lemma_string_then_bytes_injective, spec_bytes_fit, spec_string_fits,
    spec_string_then_bytes, PayloadError,
};
use vstd::prelude::*;

verus! {

/// Sent by the client: an end-to-end protected message for a recipient.
#[derive(Debug, Clone, PartialEq, Eq)]
pub struct SendMessagePayload {
    /// Client-chosen id, unique per session, used to track delivery.
    pub message_id: u64,
    pub recipient_id: String,
    pub content: Vec<u8>,
}

impl SendMessagePayload {
    /// Whether the payload can be encoded.
    pub open spec fn spec_fits(&self) -> bool {
        spec_string_fits(self.recipient_id@) && spec_bytes_fit(self.content@)
    }

    /// The wire form: message id, then recipient and content, each
    /// length-prefixed.
    pub open spec fn spec_encoding(&self) -> Seq<u8> {
        spec_u64_be(self.message_id) + spec_string_then_bytes(self.recipient_id@, self.content@)
    }

    /// Encodes the payload; fails exactly when a field is too long for its
    /// length prefix.
    pub fn encode(&self) -> (r: Result<Vec<u8>, PayloadError>)
        ensures
            match r {
                Ok(v) => self.spec_fits() && v@ == self.spec_encoding(),
                Err(e) => !self.spec_fits() && e is InvalidInput,
            },
    {
        let recipient = encode_sized_string(self.recipient_id.as_str())?;
        let content = encode_sized_bytes(self.content.as_slice())?;
        let mut out: Vec<u8> = Vec::new();
        push_u64_be(&mut out, self.message_id);
        out.extend_from_slice(recipient.as_slice());
        out.extend_from_slice(content.as_slice());
        assert(out@ =~= self.spec_encoding());
        Ok(out)
    }

    /// Decodes the payload; fails exactly when `bytes` is not the wire form
    /// of any such payload.
    pub fn decode(bytes: &[u8]) -> (r: Result<Self, PayloadError>)
        ensures
            match r {
                Ok(p) => p.spec_fits() && p.spec_encoding() == bytes@,
                Err(e) => e is InvalidData && forall|p: Self|
                    #[trigger] p.spec_fits() ==> p.spec_encoding() != bytes@,
            },
    {
        match decode_id_string_bytes(bytes, "send_message") {
            Err(e) => {
                proof {
                    assert forall|p: Self| #[trigger] p.spec_fits() implies p.spec_encoding()
                        != bytes@ by {
                        assert(p.spec_encoding() == spec_id_string_bytes(
                            p.message_id,
                            p.recipient_id@,
                            p.content@,
                        ));
                    }
                }
                Err(e)
            },
            Ok((message_id, recipient_id, content)) => Ok(Self { message_id, recipient_id, content }),
        }
    }
}

/// Sent by the server: a message delivered from a sender.
#[derive(Debug, Clone, PartialEq, Eq)]
pub struct DeliverMessagePayload {
    /// The id the sender chose, used for the delivery receipt.
    pub message_id: u64,
    pub sender_id: String,
    pub content: Vec<u8>,
}

impl DeliverMessagePayload {
    /// Whether the payload can be encoded.
    pub open spec fn spec_fits(&self) -> bool {
        spec_string_fits(self.sender_id@) && spec_bytes_fit(self.content@)
    }

    /// The wire form: message id, then sender and content, each
    /// length-prefixed.
    pub open spec fn spec_encoding(&self) -> Seq<u8> {
        spec_u64_be(self.message_id) + spec_string_then_bytes(self.sender_id@, self.content@)
    }

    /// Encodes the payload; fails exactly when a field is too long for its
    /// length prefix.
    pub fn encode(&self) -> (r: Result<Vec<u8>, PayloadError>)
        ensures
            match r {
                Ok(v) => self.spec_fits() && v@ == self.spec_encoding(),
                Err(e) => !self.spec_fits() && e is InvalidInput,
            },
    {
        let sender = encode_sized_string(self.sender_id.as_str())?;
        let content = encode_sized_bytes(self.content.as_slice())?;
        let mut out: Vec<u8> = Vec::new();
        push_u64_be(&mut out, self.message_id);
        out.extend_from_slice(sender.as_slice());
        out.extend_from_slice(content.as_slice());
        assert(out@ =~= self.spec_encoding());
        Ok(out)
    }

    /// Decodes the payload; fails exactly when `bytes` is not the wire form
    /// of any such payload.
    pub fn decode(bytes: &[u8]) -> (r: Result<Self, PayloadError>)
        ensures
            match r {
                Ok(p) => p.spec_fits() && p.spec_encoding() == bytes@,
                Err(e) => e is InvalidData && forall|p: Self|
                    #[trigger] p.spec_fits() ==> p.spec_encoding() != bytes@,
            },
    {
        match decode_id_string_bytes(bytes, "deliver_message") {
            Err(e) => {
                proof {
                    assert forall|p: Self| #[trigger] p.spec_fits() implies p.spec_encoding()
                        != bytes@ by {
                        assert(p.spec_encoding() == spec_id_string_bytes(
                            p.message_id,
                            p.sender_id@,
                            p.content@,
                        ));
                    }
                }
                Err(e)
            },
            Ok((message_id, sender_id, content)) => Ok(Self { message_id, sender_id, content }),
        }
    }
}

/// An id, a string and a byte string on the wire.
pub open spec fn spec_id_string_bytes(id: u64, s: Seq<char>, b: Seq<u8>) -> Seq<u8> {
    spec_u64_be(id) + spec_string_then_bytes(s, b)
}

/// Decodes exactly a big-endian `u64`, a length-prefixed string and a
/// length-prefixed byte string.
pub(crate) fn decode_id_string_bytes(bytes: &[u8], payload_name: &str) -> (r: Result<(u64, String, Vec<u8>), PayloadError>)
    ensures
        match r {
            Ok((id, s, b)) => spec_string_fits(s@) && spec_bytes_fit(b@) && spec_id_string_bytes(
                id,
                s@,
                b@,
            ) == bytes@,
            Err(e) => e is InvalidData && forall|id: u64, s: Seq<char>, b: Seq<u8>|
                spec_string_fits(s) && spec_bytes_fit(b) ==> #[trigger] spec_id_string_bytes(
                    id,
                    s,
                    b,
                ) != bytes@,
        },
{
    if bytes.len() < 8 {
        proof {
            assert forall|id: u64, s: Seq<char>, b: Seq<u8>|
                spec_string_fits(s) && spec_bytes_fit(b) implies #[trigger] spec_id_string_bytes(
                id,
                s,
                b,
            ) != bytes@ by {
                lemma_u64_be(id, seq![]);
                lemma_split_at(spec_u64_be(id), spec_string_then_bytes(s, b));
            }
        }
        return Err(invalid_data_named(payload_name, " too short for message_id"));
    }
    let id = read_u64_be(bytes, 0);
    let tail = &bytes[8..bytes.len()];
    proof {
        assert forall|i: u64, s: Seq<char>, b: Seq<u8>|
            #[trigger] spec_id_string_bytes(i, s, b) == bytes@ implies spec_string_then_bytes(s, b)
            == tail@ by {
            lemma_u64_be(i, seq![]);
            lemma_split_at(spec_u64_be(i), spec_string_then_bytes(s, b));
        }
    }
    match decode_string_then_bytes(tail) {
        Err(e) => Err(e),
        Ok((s, b)) => {
            proof {
                lemma_u64_be(id, bytes@.subrange(0, 8));
                assert(spec_id_string_bytes(id, s@, b@) =~= bytes@.subrange(0, 8) + tail@);
                assert(bytes@ =~= bytes@.subrange(0, 8) + tail@);
            }
            Ok((id, s, b))
        },
    }
}

/// Delivery status reported back to a message's sender.
#[derive(Debug, Clone, Copy, PartialEq, Eq, Structural)]
pub enum MessageStatus {
    /// The server received the message.
    SentToServer,
    /// The recipient acknowledged it with a delivery receipt.
    Delivered,
    /// The server could not deliver it.
    Failed,
}

impl MessageStatus {
    /// The wire code of the status.
    pub open spec fn spec_code(self) -> u8 {
        match self {
            MessageStatus::SentToServer => 0,
            MessageStatus::Delivered => 1,
            MessageStatus::Failed => 2,
        }
    }

    /// The status with wire code `v`; any other code is refused.
    fn from_u8(v: u8) -> (r: Result<Self, PayloadError>)
        ensures
            match r {
                Ok(s) => s.spec_code() == v,
                Err(e) => e is InvalidData && forall|s: Self| #[trigger] s.spec_code()
                    != v,
            },
    {
        match v {
            0 => Ok(Self::SentToServer),
            1 => Ok(Self::Delivered),
            2 => Ok(Self::Failed),
            _ => Err(invalid_data("unknown message_status value")),
        }
    }

    /// The wire code of the status.
    fn as_u8(self) -> (r: u8)
        ensures
            r == self.spec_code(),
    {
        match self {
            Self::SentToServer => 0,
            Self::Delivered => 1,
            Self::Failed => 2,
        }
    }
}

/// Sent by the server to a message's sender when its status changes.
#[derive(Debug, Clone, PartialEq, Eq)]
pub struct MessageStatusUpdatePayload {
    pub message_id: u64,
    pub status: MessageStatus,
}

impl MessageStatusUpdatePayload {
    /// The wire form: message id, then the status byte.
    pub open spec fn spec_encoding(&self) -> Seq<u8> {
        spec_u64_be(self.message_id) + seq![self.status.spec_code()]
    }

    /// Encodes the payload.
    pub fn encode(&self) -> (v: Vec<u8>)
        ensures
            v@ == self.spec_encoding(),
    {
        let mut out: Vec<u8> = Vec::with_capacity(9);
        push_u64_be(&mut out, self.message_id);
        out.push(self.status.as_u8());
        assert(out@ =~= self.spec_encoding());
        out
    }

    /// Decodes the payload; fails exactly when `bytes` is not 9 bytes long
    /// or its status byte is unknown.
    pub fn decode(bytes: &[u8]) -> (r: Result<Self, PayloadError>)
        ensures
            match r {
                Ok(p) => p.spec_encoding() == bytes@,
                Err(e) => e is InvalidData && forall|p: Self|
                    #[trigger] p.spec_encoding() != bytes@,
            },
    {
        if bytes.len() != 9 {
            proof {
                assert forall|p: Self| #[trigger] p.spec_encoding() != bytes@ by {
                    lemma_u64_be(p.message_id, seq![]);
                }
            }
            return Err(invalid_data_count("message_status_update must be 9 bytes, got ", bytes.len() as u64));
        }
        let message_id = read_u64_be(bytes, 0);
        match MessageStatus::from_u8(bytes[8]) {
            Err(e) => {
                proof {
                    assert forall|p: Self| #[trigger] p.spec_encoding() != bytes@ by {
                        lemma_u64_be(p.message_id, seq![]);
                        if p.spec_encoding() == bytes@ {
                            assert(p.spec_encoding()[8] == p.status.spec_code());
                        }
                    }
                }
                Err(e)
            },
            Ok(status) => {
                let p = Self { message_id, status };
                proof {
                    lemma_u64_be(message_id, bytes@.subrange(0, 8));
                    assert(p.spec_encoding() =~= bytes@);
                }
                Ok(p)
            },
        }
    }
}

/// Sent by a message's recipient to confirm it arrived.
#[derive(Debug, Clone, PartialEq, Eq)]
pub struct DeliveryReceiptPayload {
    pub message_id: u64,
}

impl DeliveryReceiptPayload {
    /// The wire form: the message id, big-endian.
    pub open spec fn spec_encoding(&self) -> Seq<u8> {
        spec_u64_be(self.message_id)
    }

    /// Encodes the payload.
    pub fn encode(&self) -> (v: Vec<u8>)
        ensures
            v@ == self.spec_encoding(),
    {
        let mut out: Vec<u8> = Vec::new();
        push_u64_be(&mut out, self.message_id);
        out
    }

    /// Decodes the payload; fails exactly when `bytes` is not 8 bytes long.
    pub fn decode(bytes: &[u8]) -> (r: Result<Self, PayloadError>)
        ensures
            match r {
                Ok(p) => p.spec_encoding() == bytes@,
                Err(e) => e is InvalidData && bytes@.len() != 8 && forall|p: Self|
                    #[trigger] p.spec_encoding() != bytes@,
            },
    {
        let message_id = decode_exact_u64(bytes, "delivery_receipt")?;
        Ok(Self { message_id })
    }
}

/// Message payloads round-trip: an id, a string and a byte string are
/// determined by their wire form. This covers `SendMessagePayload` and
/// `DeliverMessagePayload`.
pub proof fn lemma_id_string_bytes_injective(
    id1: u64,
    s1: Seq<char>,
    b1: Seq<u8>,
    id2: u64,
    s2: Seq<char>,
    b2: Seq<u8>,
)
    requires
        spec_string_fits(s1),
        spec_string_fits(s2),
        spec_bytes_fit(b1),
        spec_bytes_fit(b2),
        spec_id_string_bytes(id1, s1, b1) == spec_id_string_bytes(id2, s2, b2),
    ensures
        id1 == id2,
        s1 == s2,
        b1 == b2,
{
    lemma_u64_be(id1, seq![]);
    lemma_u64_be(id2, seq![]);
    lemma_split_at(spec_u64_be(id1), spec_string_then_bytes(s1, b1));
    lemma_split_at(spec_u64_be(id2), spec_string_then_bytes(s2, b2));
    lemma_string_then_bytes_injective(s1, b1, s2, b2);
}

/// A status update is determined by its wire form.
pub proof fn lemma_message_status_update_encoding_injective(
    a: MessageStatusUpdatePayload,
    b: MessageStatusUpdatePayload,
)
    requires
        a.spec_encoding() == b.spec_encoding(),
    ensures
        a == b,
{
    lemma_u64_be(a.message_id, seq![]);
    lemma_u64_be(b.message_id, seq![]);
    lemma_split_at(spec_u64_be(a.message_id), seq![a.status.spec_code()]);
    lemma_split_at(spec_u64_be(b.message_id), seq![b.status.spec_code()]);
    assert(a.spec_encoding()[8] == a.status.spec_code());
    assert(b.spec_encoding()[8] == b.status.spec_code());
    match a.status {
        _ => {
            match b.status {
                _ => {},
            }
        },
    }
}

/// The status byte of a status update is fixed by the wire format:
/// `SentToServer` is 0, `Delivered` 1 and `Failed` 2, after the 8-byte
/// message id.
pub proof fn lemma_message_status_wire_byte(p: MessageStatusUpdatePayload)
    ensures
        p.spec_encoding().len() == 9,
        p.spec_encoding()[8] == 0 <==> p.status == MessageStatus::SentToServer,
        p.spec_encoding()[8] == 1 <==> p.status == MessageStatus::Delivered,
        p.spec_encoding()[8] == 2 <==> p.status == MessageStatus::Failed,
{
    lemma_u64_be(p.message_id, seq![]);
}

} // verus!
