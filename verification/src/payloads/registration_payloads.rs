//! Username registration payloads.
use crate::payloads::common::{
    bool_byte, decode_bool_then_string, decode_exact_string, encode_sized_string,
    lemma_bool_then_string_injective, lemma_sized_string_injective, spec_bool_then_string,
    spec_sized_string, spec_string_fits, PayloadError,
};
use vstd::prelude::*;

verus! {

/// Sent by the client (established) to claim a username for its device
/// identity.
#[derive(Debug, Clone, PartialEq, Eq)]
pub struct RegisterDevicePayload {
    pub username: String,
}

impl RegisterDevicePayload {
    /// Whether the payload can be encoded.
    pub open spec fn spec_fits(&self) -> bool {
        spec_string_fits(self.username@)
    }

    /// The wire form: the length-prefixed username.
    pub open spec fn spec_encoding(&self) -> Seq<u8> {
        spec_sized_string(self.username@)
    }

    /// Encodes the payload; fails exactly when the username is too long.
    pub fn encode(&self) -> (r: Result<Vec<u8>, PayloadError>)
        ensures
            match r {
                Ok(v) => self.spec_fits() && v@ == self.spec_encoding(),
                Err(e) => !self.spec_fits() && e is InvalidInput,
            },
    {
        encode_sized_string(self.username.as_str())
    }

    /// Decodes the payload; fails exactly when `bytes` is not the wire form
    /// of any such payload.
    pub fn decode(bytes: &[u8]) -> (r: Result<Self, PayloadError>)
        ensures
            match r {
                Ok(p) => p.spec_fits() && p.spec_encoding() == bytes@,
                Err(e) => e is InvalidData && forall|p: Self|
                    #[trigger] p.spec_fits() ==> p.spec_encoding() != bytes@,
            },
    {
        let username = decode_exact_string(bytes, "register_device")?;
        Ok(Self { username })
    }
}

/// Sent by the server in answer to `RegisterDevicePayload`.
#[derive(Debug, Clone, PartialEq, Eq)]
pub struct RegisterResponsePayload {
    pub success: bool,
    pub message: String,
}

impl RegisterResponsePayload {
    /// Whether the payload can be encoded.
    pub open spec fn spec_fits(&self) -> bool {
        spec_string_fits(self.message@)
    }

    /// The wire form: the success byte, then the length-prefixed message.
    pub open spec fn spec_encoding(&self) -> Seq<u8> {
        spec_bool_then_string(self.success, self.message@)
    }

    /// Encodes the payload; fails exactly when the message is too long.
    pub fn encode(&self) -> (r: Result<Vec<u8>, PayloadError>)
        ensures
            match r {
                Ok(v) => self.spec_fits() && v@ == self.spec_encoding(),
                Err(e) => !self.spec_fits() && e is InvalidInput,
            },
    {
        let message = encode_sized_string(self.message.as_str())?;
        let mut out: Vec<u8> = Vec::with_capacity(1 + message.len());
        out.push(bool_byte(self.success));
        out.extend_from_slice(message.as_slice());
        assert(out@ =~= self.spec_encoding());
        Ok(out)
    }

    /// Decodes the payload; fails exactly when `bytes` is not the wire form
    /// of any such payload (empty, a non-canonical boolean, a bad string or
    /// trailing bytes).
    pub fn decode(bytes: &[u8]) -> (r: Result<Self, PayloadError>)
        ensures
            match r {
                Ok(p) => p.spec_fits() && p.spec_encoding() == bytes@,
                Err(e) => e is InvalidData && forall|p: Self|
                    #[trigger] p.spec_fits() ==> p.spec_encoding() != bytes@,
            },
    {
        match decode_bool_then_string(bytes, "register_response") {
            Err(e) => {
                proof {
                    assert forall|p: Self| #[trigger] p.spec_fits() implies p.spec_encoding()
                        != bytes@ by {
                        assert(p.spec_encoding() == spec_bool_then_string(p.success, p.message@));
                    }
                }
                Err(e)
            },
            Ok((success, message)) => Ok(Self { success, message }),
        }
    }
}

/// A registration request is determined by its wire form.
pub proof fn lemma_register_device_encoding_injective(
    a: RegisterDevicePayload,
    b: RegisterDevicePayload,
)
    requires
        a.spec_fits(),
        b.spec_fits(),
        a.spec_encoding() == b.spec_encoding(),
    ensures
        a.username@ == b.username@,
{
    lemma_sized_string_injective(a.username@, b.username@);
}

/// A registration response is determined by its wire form.
pub proof fn lemma_register_response_encoding_injective(
    a: RegisterResponsePayload,
    b: RegisterResponsePayload,
)
    requires
        a.spec_fits(),
        b.spec_fits(),
        a.spec_encoding() == b.spec_encoding(),
    ensures
        a.success == b.success,
        a.message@ == b.message@,
{
    lemma_bool_then_string_injective(a.success, a.message@, b.success, b.message@);
}

} // verus!
