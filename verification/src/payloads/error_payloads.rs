//! The `Error` payload.
use crate::payloads::common::{
    decode_exact_string, encode_sized_string, lemma_sized_string_injective, spec_sized_string,
    spec_string_fits, PayloadError,
};
use vstd::prelude::*;

verus! {

/// Sent by either side before giving up on a connection.
#[derive(Debug, Clone)]
pub struct ErrorPayload {
    pub message: String,
}

impl ErrorPayload {
    /// Whether the payload can be encoded.
    pub open spec fn spec_fits(&self) -> bool {
        spec_string_fits(self.message@)
    }

    /// The payload's wire form.
    pub open spec fn spec_encoding(&self) -> Seq<u8> {
        spec_sized_string(self.message@)
    }

    /// Encodes the payload; fails exactly when the message is too long.
    pub fn encode(&self) -> (r: Result<Vec<u8>, PayloadError>)
        ensures
            match r {
                Ok(v) => self.spec_fits() && v@ == self.spec_encoding(),
                Err(e) => !self.spec_fits() && e is InvalidInput,
            },
    {
        encode_sized_string(self.message.as_str())
    }

    /// Decodes the payload; fails exactly when `bytes` is not the wire form
    /// of any error payload.
    pub fn decode(bytes: &[u8]) -> (r: Result<Self, PayloadError>)
        ensures
            match r {
                Ok(p) => p.spec_fits() && p.spec_encoding() == bytes@,
                Err(e) => e is InvalidData && forall|p: Self|
                    #[trigger] p.spec_fits() ==> p.spec_encoding() != bytes@,
            },
    {
        let message = decode_exact_string(bytes, "error")?;
        Ok(Self { message })
    }
}

/// Two error payloads with the same wire form carry the same message, so
/// decoding an encoded payload gives it back.
pub proof fn lemma_error_payload_encoding_injective(a: ErrorPayload, b: ErrorPayload)
    requires
        a.spec_fits(),
        b.spec_fits(),
        a.spec_encoding() == b.spec_encoding(),
    ensures
        a.message@ == b.message@,
{
    lemma_sized_string_injective(a.message@, b.message@);
}

} // verus!
