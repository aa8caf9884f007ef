//! Friend requests, friend removal, presence and typing payloads.
use crate::be_bytes::{lemma_u64_be, push_u64_be, read_u64_be, spec_u64_be};
use crate::payloads::common::{
    invalid_data,
    bool_byte, decode_bool, decode_exact_string, decode_sized_string, encode_sized_string,
    lemma_concat_prefix, lemma_sized_string_injective, lemma_sized_string_shape,
    lemma_sized_string_unique, lemma_split_at, spec_bool_byte, spec_sized_string,
    spec_string_fits, PayloadError,
};
use vstd::prelude::*;

verus! {

/// Sent by the client to ask another user, by username, for friendship.
#[derive(Debug, Clone, PartialEq, Eq)]
pub struct SendFriendRequestPayload {
    pub target_username: String,
}

impl SendFriendRequestPayload {
    /// Whether the payload can be encoded.
    pub open spec fn spec_fits(&self) -> bool {
        spec_string_fits(self.target_username@)
    }

    /// The wire form: the length-prefixed `target_username`.
    pub open spec fn spec_encoding(&self) -> Seq<u8> {
        spec_sized_string(self.target_username@)
    }

    /// Encodes the payload; fails exactly when the name is too long.
    pub fn encode(&self) -> (r: Result<Vec<u8>, PayloadError>)
        ensures
            match r {
                Ok(v) => self.spec_fits() && v@ == self.spec_encoding(),
                Err(e) => !self.spec_fits() && e is InvalidInput,
            },
    {
        encode_sized_string(self.target_username.as_str())
    }

    /// Decodes the payload; fails exactly when `bytes` is not the wire form
    /// of any such payload.
    pub fn decode(bytes: &[u8]) -> (r: Result<Self, PayloadError>)
        ensures
            match r {
                Ok(p) => p.spec_fits() && p.spec_encoding() == bytes@,
                Err(e) => e is InvalidData && forall|p: Self|
                    #[trigger] p.spec_fits() ==> p.spec_encoding() != bytes@,
            },
    {
        let target_username = decode_exact_string(bytes, "send_friend_request")?;
        Ok(Self { target_username })
    }
}

/// Outcome of a friend request.
#[derive(Debug, Clone, Copy, PartialEq, Eq, Structural)]
pub enum FriendRequestStatus {
    Accepted,
    Rejected,
    UserNotFound,
}

impl FriendRequestStatus {
    /// The wire code.
    pub open spec fn spec_code(self) -> u8 {
        match self {
            FriendRequestStatus::Accepted => 0,
            FriendRequestStatus::Rejected => 1,
            FriendRequestStatus::UserNotFound => 2,
        }
    }

    /// The value with wire code `v`; any other code is refused.
    fn from_u8(v: u8) -> (r: Result<Self, PayloadError>)
        ensures
            match r {
                Ok(s) => s.spec_code() == v,
                Err(e) => e is InvalidData && forall|s: Self| #[trigger] s.spec_code()
                    != v,
            },
    {
        match v {
            0 => Ok(Self::Accepted),
            1 => Ok(Self::Rejected),
            2 => Ok(Self::UserNotFound),
            _ => Err(invalid_data("unknown friend_request status")),
        }
    }

    /// The wire code.
    fn as_u8(self) -> (r: u8)
        ensures
            r == self.spec_code(),
    {
        match self {
            Self::Accepted => 0,
            Self::Rejected => 1,
            Self::UserNotFound => 2,
        }
    }
}

/// Sent by the server to the requester with the request's outcome.
#[derive(Debug, Clone, PartialEq, Eq)]
pub struct FriendRequestResultPayload {
    pub status: FriendRequestStatus,
}

impl FriendRequestResultPayload {
    /// The wire form: the single status byte.
    pub open spec fn spec_encoding(&self) -> Seq<u8> {
        seq![self.status.spec_code()]
    }

    /// Encodes the payload.
    pub fn encode(&self) -> (v: Vec<u8>)
        ensures
            v@ == self.spec_encoding(),
    {
        let mut out: Vec<u8> = Vec::new();
        out.push(self.status.as_u8());
        assert(out@ =~= self.spec_encoding());
        out
    }

    /// Decodes the payload; fails exactly when `bytes` is not one known
    /// status byte.
    pub fn decode(bytes: &[u8]) -> (r: Result<Self, PayloadError>)
        ensures
            match r {
                Ok(p) => p.spec_encoding() == bytes@,
                Err(e) => e is InvalidData && forall|p: Self|
                    #[trigger] p.spec_encoding() != bytes@,
            },
    {
        if bytes.len() != 1 {
            return Err(invalid_data("friend_request_result must be exactly 1 byte"));
        }
        match FriendRequestStatus::from_u8(bytes[0]) {
            Err(e) => {
                proof {
                    assert forall|p: Self| #[trigger] p.spec_encoding() != bytes@ by {
                        if p.spec_encoding() == bytes@ {
                            assert(p.spec_encoding()[0] == p.status.spec_code());
                        }
                    }
                }
                Err(e)
            },
            Ok(status) => {
                let p = Self { status };
                assert(p.spec_encoding() =~= bytes@);
                Ok(p)
            },
        }
    }
}

/// Sent by the server to notify the target of an incoming request.
#[derive(Debug, Clone, PartialEq, Eq)]
pub struct IncomingFriendRequestPayload {
    pub sender_username: String,
}

impl IncomingFriendRequestPayload {
    /// Whether the payload can be encoded.
    pub open spec fn spec_fits(&self) -> bool {
        spec_string_fits(self.sender_username@)
    }

    /// The wire form: the length-prefixed `sender_username`.
    pub open spec fn spec_encoding(&self) -> Seq<u8> {
        spec_sized_string(self.sender_username@)
    }

    /// Encodes the payload; fails exactly when the name is too long.
    pub fn encode(&self) -> (r: Result<Vec<u8>, PayloadError>)
        ensures
            match r {
                Ok(v) => self.spec_fits() && v@ == self.spec_encoding(),
                Err(e) => !self.spec_fits() && e is InvalidInput,
            },
    {
        encode_sized_string(self.sender_username.as_str())
    }

    /// Decodes the payload; fails exactly when `bytes` is not the wire form
    /// of any such payload.
    pub fn decode(bytes: &[u8]) -> (r: Result<Self, PayloadError>)
        ensures
            match r {
                Ok(p) => p.spec_fits() && p.spec_encoding() == bytes@,
                Err(e) => e is InvalidData && forall|p: Self|
                    #[trigger] p.spec_fits() ==> p.spec_encoding() != bytes@,
            },
    {
        let sender_username = decode_exact_string(bytes, "incoming_friend_request")?;
        Ok(Self { sender_username })
    }
}

/// Sent by the target back to the server to accept or reject the request
/// from `sender_username`.
#[derive(Debug, Clone, PartialEq, Eq)]
pub struct FriendRequestDecisionPayload {
    pub sender_username: String,
    pub accepted: bool,
}

impl FriendRequestDecisionPayload {
    /// Whether the payload can be encoded.
    pub open spec fn spec_fits(&self) -> bool {
        spec_string_fits(self.sender_username@)
    }

    /// The wire form: the length-prefixed username, then the decision
    /// byte.
    pub open spec fn spec_encoding(&self) -> Seq<u8> {
        spec_sized_string(self.sender_username@) + seq![spec_bool_byte(self.accepted)]
    }

    /// Encodes the payload; fails exactly when the username is too long.
    pub fn encode(&self) -> (r: Result<Vec<u8>, PayloadError>)
        ensures
            match r {
                Ok(v) => self.spec_fits() && v@ == self.spec_encoding(),
                Err(e) => !self.spec_fits() && e is InvalidInput,
            },
    {
        let mut out = encode_sized_string(self.sender_username.as_str())?;
        out.push(bool_byte(self.accepted));
        Ok(out)
    }

    /// Decodes the payload; fails exactly when `bytes` is not the wire form
    /// of any such payload.
    pub fn decode(bytes: &[u8]) -> (r: Result<Self, PayloadError>)
        ensures
            match r {
                Ok(p) => p.spec_fits() && p.spec_encoding() == bytes@,
                Err(e) => e is InvalidData && forall|p: Self|
                    #[trigger] p.spec_fits() ==> p.spec_encoding() != bytes@,
            },
    {
        let (sender_username, consumed) = match decode_sized_string(bytes) {
            Ok(x) => x,
            Err(e) => {
                proof {
                    assert forall|p: Self| #[trigger] p.spec_fits() implies p.spec_encoding()
                        != bytes@ by {
                        lemma_concat_prefix(
                            spec_sized_string(p.sender_username@),
                            seq![spec_bool_byte(p.accepted)],
                        );
                    }
                }
                return Err(e);
            },
        };
        proof {
            assert forall|p: Self| #[trigger] p.spec_fits() && p.spec_encoding()
                == bytes@ implies p.sender_username@ == sender_username@ by {
                lemma_concat_prefix(
                    spec_sized_string(p.sender_username@),
                    seq![spec_bool_byte(p.accepted)],
                );
                lemma_sized_string_unique(p.sender_username@, sender_username@, bytes@);
            }
        }
        if bytes.len() != consumed + 1 {
            return Err(invalid_data("friend_request_decision payload length mismatch"));
        }
        let accepted = match decode_bool(bytes[consumed], "friend_request_decision accepted") {
            Ok(b) => b,
            Err(e) => {
                proof {
                    assert forall|p: Self| #[trigger] p.spec_fits() implies p.spec_encoding()
                        != bytes@ by {
                        if p.spec_encoding() == bytes@ {
                            assert(p.spec_encoding()[consumed as int] == spec_bool_byte(p.accepted));
                        }
                    }
                }
                return Err(e);
            },
        };
        let p = Self { sender_username, accepted };
        proof {
            assert(p.spec_encoding() =~= bytes@);
        }
        Ok(p)
    }
}

/// Sent by the client to remove a friend by username.
#[derive(Debug, Clone, PartialEq, Eq)]
pub struct RemoveFriendPayload {
    pub friend_username: String,
}

impl RemoveFriendPayload {
    /// Whether the payload can be encoded.
    pub open spec fn spec_fits(&self) -> bool {
        spec_string_fits(self.friend_username@)
    }

    /// The wire form: the length-prefixed `friend_username`.
    pub open spec fn spec_encoding(&self) -> Seq<u8> {
        spec_sized_string(self.friend_username@)
    }

    /// Encodes the payload; fails exactly when the name is too long.
    pub fn encode(&self) -> (r: Result<Vec<u8>, PayloadError>)
        ensures
            match r {
                Ok(v) => self.spec_fits() && v@ == self.spec_encoding(),
                Err(e) => !self.spec_fits() && e is InvalidInput,
            },
    {
        encode_sized_string(self.friend_username.as_str())
    }

    /// Decodes the payload; fails exactly when `bytes` is not the wire form
    /// of any such payload.
    pub fn decode(bytes: &[u8]) -> (r: Result<Self, PayloadError>)
        ensures
            match r {
                Ok(p) => p.spec_fits() && p.spec_encoding() == bytes@,
                Err(e) => e is InvalidData && forall|p: Self|
                    #[trigger] p.spec_fits() ==> p.spec_encoding() != bytes@,
            },
    {
        let friend_username = decode_exact_string(bytes, "remove_friend")?;
        Ok(Self { friend_username })
    }
}

/// Outcome of a friend removal.
#[derive(Debug, Clone, Copy, PartialEq, Eq, Structural)]
pub enum RemoveFriendStatus {
    Success,
    /// The username was not in the caller's friend list.
    NotFound,
}

impl RemoveFriendStatus {
    /// The wire code.
    pub open spec fn spec_code(self) -> u8 {
        match self {
            RemoveFriendStatus::Success => 0,
            RemoveFriendStatus::NotFound => 1,
        }
    }

    /// The value with wire code `v`; any other code is refused.
    fn from_u8(v: u8) -> (r: Result<Self, PayloadError>)
        ensures
            match r {
                Ok(s) => s.spec_code() == v,
                Err(e) => e is InvalidData && forall|s: Self| #[trigger] s.spec_code()
                    != v,
            },
    {
        match v {
            0 => Ok(Self::Success),
            1 => Ok(Self::NotFound),
            _ => Err(invalid_data("unknown remove_friend status")),
        }
    }

    /// The wire code.
    fn as_u8(self) -> (r: u8)
        ensures
            r == self.spec_code(),
    {
        match self {
            Self::Success => 0,
            Self::NotFound => 1,
        }
    }
}

/// Sent by the server in answer to `RemoveFriendPayload`.
#[derive(Debug, Clone, PartialEq, Eq)]
pub struct RemoveFriendResultPayload {
    pub status: RemoveFriendStatus,
}

impl RemoveFriendResultPayload {
    /// The wire form: the single status byte.
    pub open spec fn spec_encoding(&self) -> Seq<u8> {
        seq![self.status.spec_code()]
    }

    /// Encodes the payload.
    pub fn encode(&self) -> (v: Vec<u8>)
        ensures
            v@ == self.spec_encoding(),
    {
        let mut out: Vec<u8> = Vec::new();
        out.push(self.status.as_u8());
        assert(out@ =~= self.spec_encoding());
        out
    }

    /// Decodes the payload; fails exactly when `bytes` is not one known
    /// status byte.
    pub fn decode(bytes: &[u8]) -> (r: Result<Self, PayloadError>)
        ensures
            match r {
                Ok(p) => p.spec_encoding() == bytes@,
                Err(e) => e is InvalidData && forall|p: Self|
                    #[trigger] p.spec_encoding() != bytes@,
            },
    {
        if bytes.len() != 1 {
            return Err(invalid_data("remove_friend_result must be exactly 1 byte"));
        }
        match RemoveFriendStatus::from_u8(bytes[0]) {
            Err(e) => {
                proof {
                    assert forall|p: Self| #[trigger] p.spec_encoding() != bytes@ by {
                        if p.spec_encoding() == bytes@ {
                            assert(p.spec_encoding()[0] == p.status.spec_code());
                        }
                    }
                }
                Err(e)
            },
            Ok(status) => {
                let p = Self { status };
                assert(p.spec_encoding() =~= bytes@);
                Ok(p)
            },
        }
    }
}

/// Sent by the server to a removed user, naming who removed them.
#[derive(Debug, Clone, PartialEq, Eq)]
pub struct FriendRemovedNotificationPayload {
    pub removed_by_username: String,
}

impl FriendRemovedNotificationPayload {
    /// Whether the payload can be encoded.
    pub open spec fn spec_fits(&self) -> bool {
        spec_string_fits(self.removed_by_username@)
    }

    /// The wire form: the length-prefixed `removed_by_username`.
    pub open spec fn spec_encoding(&self) -> Seq<u8> {
        spec_sized_string(self.removed_by_username@)
    }

    /// Encodes the payload; fails exactly when the name is too long.
    pub fn encode(&self) -> (r: Result<Vec<u8>, PayloadError>)
        ensures
            match r {
                Ok(v) => self.spec_fits() && v@ == self.spec_encoding(),
                Err(e) => !self.spec_fits() && e is InvalidInput,
            },
    {
        encode_sized_string(self.removed_by_username.as_str())
    }

    /// Decodes the payload; fails exactly when `bytes` is not the wire form
    /// of any such payload.
    pub fn decode(bytes: &[u8]) -> (r: Result<Self, PayloadError>)
        ensures
            match r {
                Ok(p) => p.spec_fits() && p.spec_encoding() == bytes@,
                Err(e) => e is InvalidData && forall|p: Self|
                    #[trigger] p.spec_fits() ==> p.spec_encoding() != bytes@,
            },
    {
        let removed_by_username = decode_exact_string(bytes, "friend_removed_notification")?;
        Ok(Self { removed_by_username })
    }
}

/// A friend's presence.
#[derive(Debug, Clone, Copy, PartialEq, Eq, Structural)]
pub enum FriendStatus {
    Online,
    Offline,
    /// The friend is composing a message to this user.
    IsTyping,
}

impl FriendStatus {
    /// The wire code.
    pub open spec fn spec_code(self) -> u8 {
        match self {
            FriendStatus::Online => 0,
            FriendStatus::Offline => 1,
            FriendStatus::IsTyping => 2,
        }
    }

    /// The value with wire code `v`; any other code is refused.
    fn from_u8(v: u8) -> (r: Result<Self, PayloadError>)
        ensures
            match r {
                Ok(s) => s.spec_code() == v,
                Err(e) => e is InvalidData && forall|s: Self| #[trigger] s.spec_code()
                    != v,
            },
    {
        match v {
            0 => Ok(Self::Online),
            1 => Ok(Self::Offline),
            2 => Ok(Self::IsTyping),
            _ => Err(invalid_data("unknown friend_status value")),
        }
    }

    /// The wire code.
    fn as_u8(self) -> (r: u8)
        ensures
            r == self.spec_code(),
    {
        match self {
            Self::Online => 0,
            Self::Offline => 1,
            Self::IsTyping => 2,
        }
    }
}

/// Pushed by the server when a friend's status changes. `last_seen` is a
/// Unix timestamp (seconds), meaningful when the status is `Offline`.
#[derive(Debug, Clone, PartialEq, Eq)]
pub struct FriendStatusUpdatePayload {
    pub friend_username: String,
    pub status: FriendStatus,
    pub last_seen: u64,
}

impl FriendStatusUpdatePayload {
    /// Whether the payload can be encoded.
    pub open spec fn spec_fits(&self) -> bool {
        spec_string_fits(self.friend_username@)
    }

    /// The status and timestamp on the wire.
    pub open spec fn spec_tail(&self) -> Seq<u8> {
        seq![self.status.spec_code()] + spec_u64_be(self.last_seen)
    }

    /// The wire form: the length-prefixed username, the status byte and
    /// the timestamp.
    pub open spec fn spec_encoding(&self) -> Seq<u8> {
        spec_sized_string(self.friend_username@) + self.spec_tail()
    }

    /// Encodes the payload; fails exactly when the username is too long.
    pub fn encode(&self) -> (r: Result<Vec<u8>, PayloadError>)
        ensures
            match r {
                Ok(v) => self.spec_fits() && v@ == self.spec_encoding(),
                Err(e) => !self.spec_fits() && e is InvalidInput,
            },
    {
        let mut out = encode_sized_string(self.friend_username.as_str())?;
        out.push(self.status.as_u8());
        push_u64_be(&mut out, self.last_seen);
        assert(out@ =~= self.spec_encoding());
        Ok(out)
    }

    /// Decodes the payload; fails exactly when `bytes` is not the wire form
    /// of any such payload.
    pub fn decode(bytes: &[u8]) -> (r: Result<Self, PayloadError>)
        ensures
            match r {
                Ok(p) => p.spec_fits() && p.spec_encoding() == bytes@,
                Err(e) => e is InvalidData && forall|p: Self|
                    #[trigger] p.spec_fits() ==> p.spec_encoding() != bytes@,
            },
    {
        let (friend_username, consumed) = match decode_sized_string(bytes) {
            Ok(x) => x,
            Err(e) => {
                proof {
                    assert forall|p: Self| #[trigger] p.spec_fits() implies p.spec_encoding()
                        != bytes@ by {
                        lemma_concat_prefix(spec_sized_string(p.friend_username@), p.spec_tail());
                    }
                }
                return Err(e);
            },
        };
        let rest = &bytes[consumed..bytes.len()];
        proof {
            assert forall|p: Self| #[trigger] p.spec_fits() && p.spec_encoding()
                == bytes@ implies rest@ == p.spec_tail() by {
                lemma_concat_prefix(spec_sized_string(p.friend_username@), p.spec_tail());
                lemma_sized_string_unique(p.friend_username@, friend_username@, bytes@);
            }
        }
        if rest.len() != 9 {
            proof {
                assert forall|p: Self| #[trigger] p.spec_fits() implies p.spec_encoding()
                    != bytes@ by {
                    lemma_u64_be(p.last_seen, seq![]);
                }
            }
            return Err(invalid_data("friend_status_update missing status/last_seen fields"));
        }
        let status = match FriendStatus::from_u8(rest[0]) {
            Ok(s) => s,
            Err(e) => {
                proof {
                    assert forall|p: Self| #[trigger] p.spec_fits() implies p.spec_encoding()
                        != bytes@ by {
                        if p.spec_encoding() == bytes@ {
                            assert(p.spec_tail()[0] == p.status.spec_code());
                        }
                    }
                }
                return Err(e);
            },
        };
        let last_seen = read_u64_be(rest, 1);
        let p = Self { friend_username, status, last_seen };
        proof {
            lemma_u64_be(last_seen, rest@.subrange(1, 9));
            assert(rest@ =~= p.spec_tail());
            assert(bytes@ =~= bytes@.subrange(0, consumed as int) + rest@);
            assert(p.spec_encoding() =~= bytes@);
        }
        Ok(p)
    }
}

/// Sent by the client while composing; forwarded to the recipient as a
/// `FriendStatusUpdate` with `IsTyping`.
#[derive(Debug, Clone, PartialEq, Eq)]
pub struct SendTypingIndicatorPayload {
    pub recipient_username: String,
}

impl SendTypingIndicatorPayload {
    /// Whether the payload can be encoded.
    pub open spec fn spec_fits(&self) -> bool {
        spec_string_fits(self.recipient_username@)
    }

    /// The wire form: the length-prefixed `recipient_username`.
    pub open spec fn spec_encoding(&self) -> Seq<u8> {
        spec_sized_string(self.recipient_username@)
    }

    /// Encodes the payload; fails exactly when the name is too long.
    pub fn encode(&self) -> (r: Result<Vec<u8>, PayloadError>)
        ensures
            match r {
                Ok(v) => self.spec_fits() && v@ == self.spec_encoding(),
                Err(e) => !self.spec_fits() && e is InvalidInput,
            },
    {
        encode_sized_string(self.recipient_username.as_str())
    }

    /// Decodes the payload; fails exactly when `bytes` is not the wire form
    /// of any such payload.
    pub fn decode(bytes: &[u8]) -> (r: Result<Self, PayloadError>)
        ensures
            match r {
                Ok(p) => p.spec_fits() && p.spec_encoding() == bytes@,
                Err(e) => e is InvalidData && forall|p: Self|
                    #[trigger] p.spec_fits() ==> p.spec_encoding() != bytes@,
            },
    {
        let recipient_username = decode_exact_string(bytes, "send_typing_indicator")?;
        Ok(Self { recipient_username })
    }
}

/// Every username-only friend payload is determined by its wire form
/// (send, incoming, remove, removed-notification, typing).
pub proof fn lemma_username_payload_encoding_injective(a: Seq<char>, b: Seq<char>)
    requires
        spec_string_fits(a),
        spec_string_fits(b),
        spec_sized_string(a) == spec_sized_string(b),
    ensures
        a == b,
{
    lemma_sized_string_injective(a, b);
}

/// A friend-request decision is determined by its wire form.
pub proof fn lemma_friend_request_decision_encoding_injective(
    a: FriendRequestDecisionPayload,
    b: FriendRequestDecisionPayload,
)
    requires
        a.spec_fits(),
        b.spec_fits(),
        a.spec_encoding() == b.spec_encoding(),
    ensures
        a.sender_username@ == b.sender_username@,
        a.accepted == b.accepted,
{
    let w = a.spec_encoding();
    lemma_concat_prefix(spec_sized_string(a.sender_username@), seq![spec_bool_byte(a.accepted)]);
    lemma_concat_prefix(spec_sized_string(b.sender_username@), seq![spec_bool_byte(b.accepted)]);
    lemma_sized_string_unique(a.sender_username@, b.sender_username@, w);
    lemma_sized_string_shape(a.sender_username@);
    let n = spec_sized_string(a.sender_username@).len() as int;
    assert(w[n] == spec_bool_byte(a.accepted));
    assert(b.spec_encoding()[n] == spec_bool_byte(b.accepted));
}

/// A friend status update is determined by its wire form.
pub proof fn lemma_friend_status_update_encoding_injective(
    a: FriendStatusUpdatePayload,
    b: FriendStatusUpdatePayload,
)
    requires
        a.spec_fits(),
        b.spec_fits(),
        a.spec_encoding() == b.spec_encoding(),
    ensures
        a.friend_username@ == b.friend_username@,
        a.status == b.status,
        a.last_seen == b.last_seen,
{
    let w = a.spec_encoding();
    lemma_concat_prefix(spec_sized_string(a.friend_username@), a.spec_tail());
    lemma_concat_prefix(spec_sized_string(b.friend_username@), b.spec_tail());
    lemma_sized_string_unique(a.friend_username@, b.friend_username@, w);
    assert(a.spec_tail() == b.spec_tail());
    lemma_split_at(seq![a.status.spec_code()], spec_u64_be(a.last_seen));
    lemma_split_at(seq![b.status.spec_code()], spec_u64_be(b.last_seen));
    assert(a.spec_tail()[0] == a.status.spec_code());
    assert(b.spec_tail()[0] == b.status.spec_code());
    lemma_u64_be(a.last_seen, seq![]);
    lemma_u64_be(b.last_seen, seq![]);
    match a.status {
        _ => {
            match b.status {
                _ => {},
            }
        },
    }
}

/// A friend-request result is determined by its wire form.
pub proof fn lemma_friend_request_result_encoding_injective(
    a: FriendRequestResultPayload,
    b: FriendRequestResultPayload,
)
    requires
        a.spec_encoding() == b.spec_encoding(),
    ensures
        a == b,
{
    assert(a.spec_encoding()[0] == a.status.spec_code());
    match a.status {
        _ => {
            match b.status {
                _ => {},
            }
        },
    }
}

/// A friend-removal result is determined by its wire form.
pub proof fn lemma_remove_friend_result_encoding_injective(
    a: RemoveFriendResultPayload,
    b: RemoveFriendResultPayload,
)
    requires
        a.spec_encoding() == b.spec_encoding(),
    ensures
        a == b,
{
    assert(a.spec_encoding()[0] == a.status.spec_code());
    match a.status {
        _ => {
            match b.status {
                _ => {},
            }
        },
    }
}

/// The result byte of a friend request is fixed by the wire format:
/// `Accepted` is 0, `Rejected` 1, `UserNotFound` 2.
pub proof fn lemma_friend_request_status_wire_byte(p: FriendRequestResultPayload)
    ensures
        p.spec_encoding().len() == 1,
        p.spec_encoding()[0] == 0 <==> p.status == FriendRequestStatus::Accepted,
        p.spec_encoding()[0] == 1 <==> p.status == FriendRequestStatus::Rejected,
        p.spec_encoding()[0] == 2 <==> p.status == FriendRequestStatus::UserNotFound,
{
}

/// The result byte of a friend removal is fixed by the wire format:
/// `Success` is 0, `NotFound` 1.
pub proof fn lemma_remove_friend_status_wire_byte(p: RemoveFriendResultPayload)
    ensures
        p.spec_encoding().len() == 1,
        p.spec_encoding()[0] == 0 <==> p.status == RemoveFriendStatus::Success,
        p.spec_encoding()[0] == 1 <==> p.status == RemoveFriendStatus::NotFound,
{
}

/// The status byte of a friend status update, right after the username,
/// is fixed by the wire format: `Online` is 0, `Offline` 1, `IsTyping` 2;
/// the last eight bytes are the timestamp.
pub proof fn lemma_friend_status_wire_byte(p: FriendStatusUpdatePayload)
    ensures
        ({
            let at = spec_sized_string(p.friend_username@).len() as int;
            let e = p.spec_encoding();
            &&& e.len() == at + 9
            &&& e[at] == 0 <==> p.status == FriendStatus::Online
            &&& e[at] == 1 <==> p.status == FriendStatus::Offline
            &&& e[at] == 2 <==> p.status == FriendStatus::IsTyping
            &&& e.subrange(at + 1, at + 9) == spec_u64_be(p.last_seen)
        }),
{
    lemma_u64_be(p.last_seen, seq![]);
    let at = spec_sized_string(p.friend_username@).len() as int;
    assert(p.spec_encoding()[at] == p.spec_tail()[0]);
    assert(p.spec_encoding().subrange(at + 1, at + 9) =~= spec_u64_be(p.last_seen));
}

/// A friend request decision ends in one byte: 1 when accepted, 0 when
/// rejected.
pub proof fn lemma_friend_request_decision_wire_byte(p: FriendRequestDecisionPayload)
    ensures
        p.spec_encoding().last() == 1 <==> p.accepted,
        p.spec_encoding().last() == 0 <==> !p.accepted,
{
}

} // verus!
