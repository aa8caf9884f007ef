//! Offline message queue payloads.
use crate::be_bytes::{lemma_u64_be, push_u64_be, read_u64_be, spec_u64_be};
use crate::payloads::common::{
    invalid_data,
    decode_exact_u64, encode_sized_bytes, encode_sized_string, lemma_split_at,
    require_fully_consumed, spec_bytes_fit, spec_string_fits, spec_string_then_bytes,
    PayloadError,
};
use crate::payloads::message_payloads::{
    decode_id_string_bytes, lemma_id_string_bytes_injective, spec_id_string_bytes,
};
use vstd::prelude::*;

verus! {

/// Sent by the client (established) to drain the messages queued while it
/// was offline. Carries no fields.
#[derive(Debug, Clone, PartialEq, Eq)]
pub struct FetchQueuedMessagesPayload;

impl FetchQueuedMessagesPayload {
    /// Encodes the (empty) payload.
    pub fn encode(&self) -> (v: Vec<u8>)
        ensures
            v@ == Seq::<u8>::empty(),
    {
        Vec::new()
    }

    /// Decodes the payload; fails exactly when `bytes` is not empty.
    pub fn decode(bytes: &[u8]) -> (r: Result<Self, PayloadError>)
        ensures
            r is Ok <==> bytes@.len() == 0,
            r matches Err(e) ==> e is InvalidData,
    {
        require_fully_consumed(bytes, 0, "fetch_queued_messages")?;
        Ok(Self)
    }
}

/// Sent by the server for each message queued for this client. `queue_id`
/// names the queued row (acknowledged with `AckQueuedMessagePayload`);
/// `message_id` is the sender's id, used for the delivery receipt.
#[derive(Debug, Clone, PartialEq, Eq)]
pub struct QueuedMessageDeliveryPayload {
    pub queue_id: u64,
    pub message_id: u64,
    pub sender_id: String,
    pub content: Vec<u8>,
}

impl QueuedMessageDeliveryPayload {
    /// Whether the payload can be encoded.
    pub open spec fn spec_fits(&self) -> bool {
        spec_string_fits(self.sender_id@) && spec_bytes_fit(self.content@)
    }

    /// The wire form: queue id, message id, then sender and content, each
    /// length-prefixed.
    pub open spec fn spec_encoding(&self) -> Seq<u8> {
        spec_u64_be(self.queue_id) + spec_id_string_bytes(
            self.message_id,
            self.sender_id@,
            self.content@,
        )
    }

    /// Encodes the payload; fails exactly when a field is too long for its
    /// length prefix.
    pub fn encode(&self) -> (r: Result<Vec<u8>, PayloadError>)
        ensures
            match r {
                Ok(v) => self.spec_fits() && v@ == self.spec_encoding(),
                Err(e) => !self.spec_fits() && e is InvalidInput,
            },
    {
        let sender = encode_sized_string(self.sender_id.as_str())?;
        let content = encode_sized_bytes(self.content.as_slice())?;
        let mut out: Vec<u8> = Vec::new();
        push_u64_be(&mut out, self.queue_id);
        push_u64_be(&mut out, self.message_id);
        out.extend_from_slice(sender.as_slice());
        out.extend_from_slice(content.as_slice());
        assert(out@ =~= self.spec_encoding());
        Ok(out)
    }

    /// Decodes the payload; fails exactly when `bytes` is not the wire form
    /// of any such payload.
    pub fn decode(bytes: &[u8]) -> (r: Result<Self, PayloadError>)
        ensures
            match r {
                Ok(p) => p.spec_fits() && p.spec_encoding() == bytes@,
                Err(e) => e is InvalidData && forall|p: Self|
                    #[trigger] p.spec_fits() ==> p.spec_encoding() != bytes@,
            },
    {
        if bytes.len() < 8 {
            proof {
                assert forall|p: Self| #[trigger] p.spec_fits() implies p.spec_encoding()
                    != bytes@ by {
                    lemma_u64_be(p.queue_id, seq![]);
                    lemma_split_at(
                        spec_u64_be(p.queue_id),
                        spec_id_string_bytes(p.message_id, p.sender_id@, p.content@),
                    );
                }
            }
            return Err(invalid_data("queued_message_delivery too short for ids"));
        }
        let queue_id = read_u64_be(bytes, 0);
        let tail = &bytes[8..bytes.len()];
        proof {
            assert forall|p: Self| #[trigger] p.spec_encoding() == bytes@ implies spec_id_string_bytes(
                p.message_id,
                p.sender_id@,
                p.content@,
            ) == tail@ by {
                lemma_u64_be(p.queue_id, seq![]);
                lemma_split_at(
                    spec_u64_be(p.queue_id),
                    spec_id_string_bytes(p.message_id, p.sender_id@, p.content@),
                );
            }
        }
        match decode_id_string_bytes(tail, "queued_message_delivery") {
            Err(e) => {
                proof {
                    assert forall|p: Self| #[trigger] p.spec_fits() implies p.spec_encoding()
                        != bytes@ by {
                        if p.spec_encoding() == bytes@ {
                            assert(spec_id_string_bytes(p.message_id, p.sender_id@, p.content@)
                                == tail@);
                        }
                    }
                }
                Err(e)
            },
            Ok((message_id, sender_id, content)) => {
                let p = Self { queue_id, message_id, sender_id, content };
                proof {
                    lemma_u64_be(queue_id, bytes@.subrange(0, 8));
                    assert(bytes@ =~= bytes@.subrange(0, 8) + tail@);
                    assert(p.spec_encoding() =~= bytes@);
                }
                Ok(p)
            },
        }
    }
}

/// Sent by the client to confirm a queued message arrived; the server
/// deletes the queued row only then.
#[derive(Debug, Clone, PartialEq, Eq)]
pub struct AckQueuedMessagePayload {
    pub queue_id: u64,
}

impl AckQueuedMessagePayload {
    /// The wire form: the queue id, big-endian.
    pub open spec fn spec_encoding(&self) -> Seq<u8> {
        spec_u64_be(self.queue_id)
    }

    /// Encodes the payload.
    pub fn encode(&self) -> (v: Vec<u8>)
        ensures
            v@ == self.spec_encoding(),
    {
        let mut out: Vec<u8> = Vec::new();
        push_u64_be(&mut out, self.queue_id);
        out
    }

    /// Decodes the payload; fails exactly when `bytes` is not 8 bytes long.
    pub fn decode(bytes: &[u8]) -> (r: Result<Self, PayloadError>)
        ensures
            match r {
                Ok(p) => p.spec_encoding() == bytes@,
                Err(e) => e is InvalidData && bytes@.len() != 8 && forall|p: Self|
                    #[trigger] p.spec_encoding() != bytes@,
            },
    {
        let queue_id = decode_exact_u64(bytes, "ack_queued_message")?;
        Ok(Self { queue_id })
    }
}

/// A queued delivery is determined by its wire form, so decoding an
/// encoded one gives it back with its content untouched.
pub proof fn lemma_queued_message_delivery_encoding_injective(
    a: QueuedMessageDeliveryPayload,
    b: QueuedMessageDeliveryPayload,
)
    requires
        a.spec_fits(),
        b.spec_fits(),
        a.spec_encoding() == b.spec_encoding(),
    ensures
        a.queue_id == b.queue_id,
        a.message_id == b.message_id,
        a.sender_id@ == b.sender_id@,
        a.content@ == b.content@,
{
    let ta = spec_id_string_bytes(a.message_id, a.sender_id@, a.content@);
    let tb = spec_id_string_bytes(b.message_id, b.sender_id@, b.content@);
    lemma_u64_be(a.queue_id, seq![]);
    lemma_u64_be(b.queue_id, seq![]);
    lemma_split_at(spec_u64_be(a.queue_id), ta);
    lemma_split_at(spec_u64_be(b.queue_id), tb);
    lemma_id_string_bytes_injective(
        a.message_id,
        a.sender_id@,
        a.content@,
        b.message_id,
        b.sender_id@,
        b.content@,
    );
}

} // verus!
