//! The `Close` payload.
use crate::payloads::common::{
    invalid_data_count, invalid_data,
    decode_exact_string, encode_sized_string, lemma_sized_string_injective, lemma_split_at,
    spec_sized_string, spec_string_fits, PayloadError,
};
use vstd::prelude::*;

verus! {

/// Why a connection is being closed.
#[derive(Debug, Clone, Copy, PartialEq, Eq, Structural)]
pub enum CloseReason {
    Normal,
    ProtocolError,
    Timeout,
    ServerShutdown,
    ClientRequest,
}

impl CloseReason {
    /// The wire code of the reason.
    pub open spec fn spec_code(self) -> u8 {
        match self {
            CloseReason::Normal => 0,
            CloseReason::ProtocolError => 1,
            CloseReason::Timeout => 2,
            CloseReason::ServerShutdown => 3,
            CloseReason::ClientRequest => 4,
        }
    }

    /// The reason with wire code `value`; any other code is refused.
    pub fn from_u8(value: u8) -> (r: Result<Self, PayloadError>)
        ensures
            match r {
                Ok(c) => c.spec_code() == value,
                Err(e) => e is InvalidData && forall|c: Self| #[trigger] c.spec_code()
                    != value,
            },
    {
        match value {
            0 => Ok(Self::Normal),
            1 => Ok(Self::ProtocolError),
            2 => Ok(Self::Timeout),
            3 => Ok(Self::ServerShutdown),
            4 => Ok(Self::ClientRequest),
            _ => Err(invalid_data_count("unknown close reason: ", value as u64)),
        }
    }

    /// The wire code of the reason.
    pub fn as_u8(self) -> (r: u8)
        ensures
            r == self.spec_code(),
    {
        match self {
            Self::Normal => 0,
            Self::ProtocolError => 1,
            Self::Timeout => 2,
            Self::ServerShutdown => 3,
            Self::ClientRequest => 4,
        }
    }
}

/// Sent by either side to close the connection.
#[derive(Debug, Clone, PartialEq, Eq)]
pub struct ClosePayload {
    pub reason: CloseReason,
    pub message: String,
}

impl ClosePayload {
    /// Whether the payload can be encoded.
    pub open spec fn spec_fits(&self) -> bool {
        spec_string_fits(self.message@)
    }

    /// The wire form: the reason byte, then the length-prefixed message.
    pub open spec fn spec_encoding(&self) -> Seq<u8> {
        seq![self.reason.spec_code()] + spec_sized_string(self.message@)
    }

    /// Encodes the payload; fails exactly when the message is too long.
    pub fn encode(&self) -> (r: Result<Vec<u8>, PayloadError>)
        ensures
            match r {
                Ok(v) => self.spec_fits() && v@ == self.spec_encoding(),
                Err(e) => !self.spec_fits() && e is InvalidInput,
            },
    {
        let msg_bytes = encode_sized_string(self.message.as_str())?;
        let mut out: Vec<u8> = Vec::with_capacity(1 + msg_bytes.len());
        out.push(self.reason.as_u8());
        out.extend_from_slice(msg_bytes.as_slice());
        assert(out@ =~= self.spec_encoding());
        Ok(out)
    }

    /// Decodes the payload; fails exactly when `bytes` is not the wire form
    /// of any close payload.
    pub fn decode(bytes: &[u8]) -> (r: Result<Self, PayloadError>)
        ensures
            match r {
                Ok(p) => p.spec_fits() && p.spec_encoding() == bytes@,
                Err(e) => e is InvalidData && forall|p: Self|
                    #[trigger] p.spec_fits() ==> p.spec_encoding() != bytes@,
            },
    {
        if bytes.len() == 0 {
            return Err(invalid_data("close payload too short"));
        }
        let tail = &bytes[1..bytes.len()];
        proof {
            assert forall|p: Self| #[trigger] p.spec_encoding() == bytes@ implies bytes@[0]
                == p.reason.spec_code() && tail@ == spec_sized_string(p.message@) by {
                lemma_split_at(seq![p.reason.spec_code()], spec_sized_string(p.message@));
            }
        }
        let reason = CloseReason::from_u8(bytes[0])?;
        match decode_exact_string(tail, "close") {
            Err(e) => {
                proof {
                    assert forall|p: Self| #[trigger] p.spec_fits() implies p.spec_encoding()
                        != bytes@ by {
                        if p.spec_encoding() == bytes@ {
                            assert(spec_sized_string(p.message@) == tail@);
                        }
                    }
                }
                Err(e)
            },
            Ok(message) => {
                let p = Self { reason, message };
                proof {
                    assert(p.spec_encoding() =~= bytes@);
                }
                Ok(p)
            },
        }
    }
}

/// A close payload is determined by its wire form.
pub proof fn lemma_close_encoding_injective(a: ClosePayload, b: ClosePayload)
    requires
        a.spec_fits(),
        b.spec_fits(),
        a.spec_encoding() == b.spec_encoding(),
    ensures
        a.reason == b.reason,
        a.message@ == b.message@,
{
    lemma_split_at(seq![a.reason.spec_code()], spec_sized_string(a.message@));
    lemma_split_at(seq![b.reason.spec_code()], spec_sized_string(b.message@));
    assert(a.spec_encoding()[0] == a.reason.spec_code());
    assert(b.spec_encoding()[0] == b.reason.spec_code());
    lemma_sized_string_injective(a.message@, b.message@);
    match a.reason {
        _ => {
            match b.reason {
                _ => {},
            }
        },
    }
}

/// The reason byte, first in a close payload, is fixed by the wire format:
/// `Normal` 0, `ProtocolError` 1, `Timeout` 2, `ServerShutdown` 3,
/// `ClientRequest` 4.
pub proof fn lemma_close_reason_wire_byte(p: ClosePayload)
    ensures
        p.spec_encoding()[0] == 0 <==> p.reason == CloseReason::Normal,
        p.spec_encoding()[0] == 1 <==> p.reason == CloseReason::ProtocolError,
        p.spec_encoding()[0] == 2 <==> p.reason == CloseReason::Timeout,
        p.spec_encoding()[0] == 3 <==> p.reason == CloseReason::ServerShutdown,
        p.spec_encoding()[0] == 4 <==> p.reason == CloseReason::ClientRequest,
{
}

} // verus!
