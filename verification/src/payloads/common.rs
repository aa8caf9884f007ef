//! Length-prefixed strings and byte strings, canonical booleans and the
//! full-consumption check shared by every payload codec.
//!
//! A string travels as a 2-byte big-endian length followed by its UTF-8
//! bytes; a byte string as a 4-byte big-endian length followed by the
//! bytes; a boolean as one byte, 0 or 1.
use crate::be_bytes::{
    lemma_u16_be, lemma_u32_be, lemma_u64_be, push_u16_be, push_u32_be, read_u16_be, read_u32_be,
    read_u64_be, spec_read_u16, spec_read_u32, spec_u16_be, spec_u32_be, spec_u64_be,
};
use crate::text::{append_decimal, spec_decimal};
use vstd::prelude::*;
use vstd::utf8::{encode_utf8, encode_utf8_decode_utf8, encode_utf8_valid_utf8, valid_utf8};

verus! {

/// Why a payload could not be encoded or decoded, with a message that
/// says what was wrong.
#[derive(Debug, Clone, PartialEq, Eq)]
pub enum PayloadError {
    /// A value is too long for its length prefix (encoding only).
    InvalidInput(String),
    /// The bytes are not the encoding of any payload of the expected kind.
    InvalidData(String),
}

/// A decoding error with the message `message`.
pub fn invalid_data(message: &str) -> (e: PayloadError)
    ensures
        e matches PayloadError::InvalidData(m) && m@ == message@,
{
    PayloadError::InvalidData(message.to_owned())
}

/// An encoding error with the message `message`.
pub fn invalid_input(message: &str) -> (e: PayloadError)
    ensures
        e matches PayloadError::InvalidInput(m) && m@ == message@,
{
    PayloadError::InvalidInput(message.to_owned())
}

/// A decoding error whose message is `name` followed by `suffix`.
pub fn invalid_data_named(name: &str, suffix: &str) -> (e: PayloadError)
    ensures
        e matches PayloadError::InvalidData(m) && m@ == name@ + suffix@,
{
    let mut m = String::from_str(name);
    m.append(suffix);
    PayloadError::InvalidData(m)
}

/// A decoding error whose message is `prefix` followed by `n` in decimal.
pub fn invalid_data_count(prefix: &str, n: u64) -> (e: PayloadError)
    ensures
        e matches PayloadError::InvalidData(m) && m@ == prefix@ + spec_decimal(n as nat),
{
    let mut m = String::from_str(prefix);
    append_decimal(&mut m, n);
    PayloadError::InvalidData(m)
}

/// The UTF-8 bytes of a string.
pub open spec fn spec_utf8(s: Seq<char>) -> Seq<u8> {
    encode_utf8(s)
}

/// Whether a string's UTF-8 form fits a 2-byte length prefix.
pub open spec fn spec_string_fits(s: Seq<char>) -> bool {
    spec_utf8(s).len() <= 0xffff
}

/// A string on the wire: 2-byte big-endian UTF-8 length, then the bytes.
pub open spec fn spec_sized_string(s: Seq<char>) -> Seq<u8> {
    spec_u16_be(spec_utf8(s).len() as u16) + spec_utf8(s)
}

/// Whether a byte string fits a 4-byte length prefix.
pub open spec fn spec_bytes_fit(b: Seq<u8>) -> bool {
    b.len() <= 0xffff_ffff
}

/// A byte string on the wire: 4-byte big-endian length, then the bytes.
pub open spec fn spec_sized_bytes(b: Seq<u8>) -> Seq<u8> {
    spec_u32_be(b.len() as u32) + b
}

/// A boolean on the wire.
pub open spec fn spec_bool_byte(b: bool) -> u8 {
    if b {
        1
    } else {
        0
    }
}

/// The wire form of a sized string is its 2-byte length and UTF-8 bytes.
pub proof fn lemma_sized_string_shape(s: Seq<char>)
    requires
        spec_string_fits(s),
    ensures
        spec_sized_string(s).len() == 2 + spec_utf8(s).len(),
        spec_read_u16(spec_sized_string(s)) == spec_utf8(s).len(),
        spec_sized_string(s).subrange(2, 2 + spec_utf8(s).len() as int) == spec_utf8(s),
{
    lemma_u16_be(spec_utf8(s).len() as u16, seq![]);
    let w = spec_sized_string(s);
    assert(w.subrange(0, 2) =~= spec_u16_be(spec_utf8(s).len() as u16));
    assert(w.subrange(2, 2 + spec_utf8(s).len() as int) =~= spec_utf8(s));
}

/// At most one string's wire form is a prefix of a byte string.
pub proof fn lemma_sized_string_unique(s1: Seq<char>, s2: Seq<char>, b: Seq<u8>)
    requires
        spec_string_fits(s1),
        spec_string_fits(s2),
        spec_sized_string(s1).is_prefix_of(b),
        spec_sized_string(s2).is_prefix_of(b),
    ensures
        s1 == s2,
{
    lemma_sized_string_shape(s1);
    lemma_sized_string_shape(s2);
    let w1 = spec_sized_string(s1);
    let w2 = spec_sized_string(s2);
    assert(w1.subrange(0, 2) =~= b.subrange(0, 2));
    assert(w2.subrange(0, 2) =~= b.subrange(0, 2));
    assert(spec_read_u16(w1) == spec_read_u16(b.subrange(0, 2)));
    assert(spec_read_u16(w2) == spec_read_u16(b.subrange(0, 2)));
    let n = spec_utf8(s1).len();
    assert(spec_utf8(s1) =~= b.subrange(2, 2 + n as int));
    assert(spec_utf8(s2) =~= b.subrange(2, 2 + n as int));
    encode_utf8_decode_utf8(s1);
    encode_utf8_decode_utf8(s2);
}

/// The wire form of a sized byte string is its 4-byte length and bytes.
pub proof fn lemma_sized_bytes_shape(b: Seq<u8>)
    requires
        spec_bytes_fit(b),
    ensures
        spec_sized_bytes(b).len() == 4 + b.len(),
        spec_read_u32(spec_sized_bytes(b)) == b.len(),
        spec_sized_bytes(b).subrange(4, 4 + b.len() as int) == b,
{
    lemma_u32_be(b.len() as u32, seq![]);
    let w = spec_sized_bytes(b);
    assert(w.subrange(0, 4) =~= spec_u32_be(b.len() as u32));
    assert(w.subrange(4, 4 + b.len() as int) =~= b);
}

/// At most one byte string's wire form is a prefix of a byte string.
pub proof fn lemma_sized_bytes_unique(b1: Seq<u8>, b2: Seq<u8>, b: Seq<u8>)
    requires
        spec_bytes_fit(b1),
        spec_bytes_fit(b2),
        spec_sized_bytes(b1).is_prefix_of(b),
        spec_sized_bytes(b2).is_prefix_of(b),
    ensures
        b1 == b2,
{
    lemma_sized_bytes_shape(b1);
    lemma_sized_bytes_shape(b2);
    let w1 = spec_sized_bytes(b1);
    let w2 = spec_sized_bytes(b2);
    assert(w1.subrange(0, 4) =~= b.subrange(0, 4));
    assert(w2.subrange(0, 4) =~= b.subrange(0, 4));
    assert(spec_read_u32(w1) == spec_read_u32(b.subrange(0, 4)));
    assert(spec_read_u32(w2) == spec_read_u32(b.subrange(0, 4)));
    assert(b1 =~= b.subrange(4, 4 + b1.len() as int));
    assert(b2 =~= b.subrange(4, 4 + b1.len() as int));
}

/// `a` is a prefix of `a + b`, and what follows it is `b`.
pub proof fn lemma_concat_prefix(a: Seq<u8>, b: Seq<u8>)
    ensures
        a.is_prefix_of(a + b),
        (a + b).subrange(a.len() as int, (a + b).len() as int) == b,
{
    assert(a =~= (a + b).subrange(0, a.len() as int));
    assert((a + b).subrange(a.len() as int, (a + b).len() as int) =~= b);
}

/// Two strings with the same wire form are the same string.
pub proof fn lemma_sized_string_injective(s1: Seq<char>, s2: Seq<char>)
    requires
        spec_string_fits(s1),
        spec_string_fits(s2),
        spec_sized_string(s1) == spec_sized_string(s2),
    ensures
        s1 == s2,
{
    let w = spec_sized_string(s1);
    assert(w.is_prefix_of(w)) by {
        assert(w =~= w.subrange(0, w.len() as int));
    }
    lemma_sized_string_unique(s1, s2, w);
}

/// Two byte strings with the same wire form are the same byte string.
pub proof fn lemma_sized_bytes_injective(b1: Seq<u8>, b2: Seq<u8>)
    requires
        spec_bytes_fit(b1),
        spec_bytes_fit(b2),
        spec_sized_bytes(b1) == spec_sized_bytes(b2),
    ensures
        b1 == b2,
{
    let w = spec_sized_bytes(b1);
    assert(w.is_prefix_of(w)) by {
        assert(w =~= w.subrange(0, w.len() as int));
    }
    lemma_sized_bytes_unique(b1, b2, w);
}

/// Wraps `std::str::from_utf8`: `Some` exactly when `v` is valid UTF-8,
/// and then the string whose UTF-8 encoding is `v`.
#[verifier::external_body]
fn str_from_utf8(v: &[u8]) -> (r: Option<&str>)
    ensures
        r is Some <==> valid_utf8(v@),
        r matches Some(s) ==> encode_utf8(s@) == v@,
{
    std::str::from_utf8(v).ok()
}

/// Encodes a string with its 2-byte length prefix; refuses one whose UTF-8
/// form is longer than 65535 bytes.
pub fn encode_sized_string(value: &str) -> (r: Result<Vec<u8>, PayloadError>)
    ensures
        match r {
            Ok(v) => spec_string_fits(value@) && v@ == spec_sized_string(value@),
            Err(e) => !spec_string_fits(value@) && e is InvalidInput,
        },
{
    let bytes = value.as_bytes();
    if bytes.len() > 0xffff {
        return Err(invalid_input("string too long"));
    }
    let mut out: Vec<u8> = Vec::with_capacity(2 + bytes.len());
    push_u16_be(&mut out, bytes.len() as u16);
    out.extend_from_slice(bytes);
    Ok(out)
}

/// Decodes a length-prefixed string at the start of `bytes`, returning it
/// and the number of bytes it took. Fails exactly when no string's wire
/// form is a prefix of `bytes` (too short, or not UTF-8).
pub fn decode_sized_string(bytes: &[u8]) -> (r: Result<(String, usize), PayloadError>)
    ensures
        match r {
            Ok((s, n)) => spec_string_fits(s@) && n == spec_sized_string(s@).len()
                && spec_sized_string(s@).is_prefix_of(bytes@),
            Err(e) => e is InvalidData && forall|s: Seq<char>|
                spec_string_fits(s) ==> !#[trigger] spec_sized_string(s).is_prefix_of(bytes@),
        },
{
    if bytes.len() < 2 {
        proof {
            assert forall|s: Seq<char>| spec_string_fits(s) implies !#[trigger] spec_sized_string(
                s,
            ).is_prefix_of(bytes@) by {
                lemma_sized_string_shape(s);
            }
        }
        return Err(invalid_data("payload too short for string length"));
    }
    let str_len = read_u16_be(bytes, 0) as usize;
    let end = 2 + str_len;
    if bytes.len() < end {
        proof {
            assert forall|s: Seq<char>| spec_string_fits(s) implies !#[trigger] spec_sized_string(
                s,
            ).is_prefix_of(bytes@) by {
                lemma_sized_string_shape(s);
                if spec_sized_string(s).is_prefix_of(bytes@) {
                    assert(spec_sized_string(s).subrange(0, 2) =~= bytes@.subrange(0, 2));
                }
            }
        }
        return Err(invalid_data("payload too short for string bytes"));
    }
    let body = &bytes[2..end];
    match str_from_utf8(body) {
        None => {
            proof {
                assert forall|s: Seq<char>| spec_string_fits(s) implies !#[trigger] spec_sized_string(
                    s,
                ).is_prefix_of(bytes@) by {
                    lemma_sized_string_shape(s);
                    if spec_sized_string(s).is_prefix_of(bytes@) {
                        assert(spec_sized_string(s).subrange(0, 2) =~= bytes@.subrange(0, 2));
                        assert(spec_utf8(s) =~= body@);
                        encode_utf8_valid_utf8(s);
                    }
                }
            }
            Err(invalid_data("string is not valid UTF-8"))
        },
        Some(text) => {
            let value = text.to_owned();
            proof {
                lemma_sized_string_shape(value@);
                lemma_u16_be(str_len as u16, bytes@.subrange(0, 2));
                assert(spec_sized_string(value@) =~= bytes@.subrange(0, end as int));
            }
            Ok((value, end))
        },
    }
}

/// Encodes a byte string with its 4-byte length prefix; refuses one longer
/// than `u32::MAX` bytes.
pub fn encode_sized_bytes(bytes: &[u8]) -> (r: Result<Vec<u8>, PayloadError>)
    ensures
        match r {
            Ok(v) => spec_bytes_fit(bytes@) && v@ == spec_sized_bytes(bytes@),
            Err(e) => !spec_bytes_fit(bytes@) && e is InvalidInput,
        },
{
    if bytes.len() > 0xffff_ffff {
        return Err(invalid_input("bytes too long"));
    }
    let mut out: Vec<u8> = Vec::new();
    push_u32_be(&mut out, bytes.len() as u32);
    out.extend_from_slice(bytes);
    Ok(out)
}

/// Decodes a length-prefixed byte string at the start of `bytes`,
/// returning it and the number of bytes it took. Fails exactly when no
/// byte string's wire form is a prefix of `bytes`.
pub fn decode_sized_bytes(bytes: &[u8]) -> (r: Result<(Vec<u8>, usize), PayloadError>)
    ensures
        match r {
            Ok((b, n)) => spec_bytes_fit(b@) && n == spec_sized_bytes(b@).len()
                && spec_sized_bytes(b@).is_prefix_of(bytes@),
            Err(e) => e is InvalidData && forall|b: Seq<u8>|
                spec_bytes_fit(b) ==> !#[trigger] spec_sized_bytes(b).is_prefix_of(bytes@),
        },
{
    if bytes.len() < 4 {
        proof {
            assert forall|b: Seq<u8>| spec_bytes_fit(b) implies !#[trigger] spec_sized_bytes(
                b,
            ).is_prefix_of(bytes@) by {
                lemma_sized_bytes_shape(b);
            }
        }
        return Err(invalid_data("missing length"));
    }
    let len = read_u32_be(bytes, 0) as usize;
    if bytes.len() - 4 < len {
        proof {
            assert forall|b: Seq<u8>| spec_bytes_fit(b) implies !#[trigger] spec_sized_bytes(
                b,
            ).is_prefix_of(bytes@) by {
                lemma_sized_bytes_shape(b);
                if spec_sized_bytes(b).is_prefix_of(bytes@) {
                    assert(spec_sized_bytes(b).subrange(0, 4) =~= bytes@.subrange(0, 4));
                }
            }
        }
        return Err(invalid_data("not enough bytes"));
    }
    let end = 4 + len;
    let mut value: Vec<u8> = Vec::new();
    value.extend_from_slice(&bytes[4..end]);
    proof {
        lemma_sized_bytes_shape(value@);
        lemma_u32_be(len as u32, bytes@.subrange(0, 4));
        assert(spec_sized_bytes(value@) =~= bytes@.subrange(0, end as int));
    }
    Ok((value, end))
}

/// Refuses a payload whose length is not exactly what its fields took.
pub fn require_fully_consumed(bytes: &[u8], consumed: usize, payload_name: &str) -> (r: Result<
    (),
    PayloadError,
>)
    ensures
        bytes@.len() == consumed ==> r is Ok,
        bytes@.len() != consumed ==> (r matches Err(PayloadError::InvalidData(m)) && m@
            == payload_name@ + " payload length mismatch"@),
{
    if bytes.len() != consumed {
        return Err(invalid_data_named(payload_name, " payload length mismatch"));
    }
    Ok(())
}

/// Decodes a payload that is exactly one length-prefixed string: fails
/// exactly when `bytes` is not the wire form of any string.
pub fn decode_exact_string(bytes: &[u8], payload_name: &str) -> (r: Result<String, PayloadError>)
    ensures
        match r {
            Ok(s) => spec_string_fits(s@) && spec_sized_string(s@) == bytes@,
            Err(e) => e is InvalidData && forall|s: Seq<char>|
                spec_string_fits(s) ==> #[trigger] spec_sized_string(s) != bytes@,
        },
{
    proof {
        assert(bytes@.is_prefix_of(bytes@)) by {
            assert(bytes@ =~= bytes@.subrange(0, bytes@.len() as int));
        }
    }
    let (value, consumed) = decode_sized_string(bytes)?;
    if bytes.len() != consumed {
        proof {
            assert forall|s: Seq<char>| spec_string_fits(s) implies #[trigger] spec_sized_string(s)
                != bytes@ by {
                if spec_sized_string(s) == bytes@ {
                    lemma_sized_string_unique(s, value@, bytes@);
                }
            }
        }
        return Err(invalid_data_named(payload_name, " payload length mismatch"));
    }
    proof {
        assert(spec_sized_string(value@) =~= bytes@);
    }
    Ok(value)
}

/// Decodes a payload that is exactly one big-endian `u64`: fails exactly
/// when `bytes` is not eight bytes long.
pub fn decode_exact_u64(bytes: &[u8], payload_name: &str) -> (r: Result<u64, PayloadError>)
    ensures
        match r {
            Ok(v) => spec_u64_be(v) == bytes@,
            Err(e) => e is InvalidData && bytes@.len() != 8 && forall|v: u64|
                #[trigger] spec_u64_be(v) != bytes@,
        },
{
    if bytes.len() != 8 {
        proof {
            assert forall|v: u64| #[trigger] spec_u64_be(v) != bytes@ by {
                lemma_u64_be(v, bytes@);
            }
        }
        let mut message = String::from_str(payload_name);
        message.append(" must be 8 bytes, got ");
        append_decimal(&mut message, bytes.len() as u64);
        return Err(PayloadError::InvalidData(message));
    }
    let v = read_u64_be(bytes, 0);
    proof {
        assert(bytes@.subrange(0, 8) =~= bytes@);
        lemma_u64_be(v, bytes@);
    }
    Ok(v)
}

/// A string followed by a byte string, both length-prefixed.
pub open spec fn spec_string_then_bytes(s: Seq<char>, b: Seq<u8>) -> Seq<u8> {
    spec_sized_string(s) + spec_sized_bytes(b)
}

/// Decodes exactly a length-prefixed string followed by a length-prefixed
/// byte string; fails exactly when `bytes` is not the wire form of any
/// such pair.
pub fn decode_string_then_bytes(bytes: &[u8]) -> (r: Result<(String, Vec<u8>), PayloadError>)
    ensures
        match r {
            Ok((s, b)) => spec_string_fits(s@) && spec_bytes_fit(b@) && spec_string_then_bytes(
                s@,
                b@,
            ) == bytes@,
            Err(e) => e is InvalidData && forall|s: Seq<char>, b: Seq<u8>|
                spec_string_fits(s) && spec_bytes_fit(b) ==> #[trigger] spec_string_then_bytes(s, b)
                    != bytes@,
        },
{
    match decode_sized_string(bytes) {
        Err(e) => {
            proof {
                assert forall|s: Seq<char>, b: Seq<u8>|
                    spec_string_fits(s) && spec_bytes_fit(b) implies #[trigger] spec_string_then_bytes(
                    s,
                    b,
                ) != bytes@ by {
                    lemma_concat_prefix(spec_sized_string(s), spec_sized_bytes(b));
                }
            }
            Err(e)
        },
        Ok((value, n)) => {
            let rest = &bytes[n..bytes.len()];
            proof {
                assert forall|s: Seq<char>, b: Seq<u8>|
                    spec_string_fits(s) && spec_bytes_fit(b) && #[trigger] spec_string_then_bytes(
                        s,
                        b,
                    ) == bytes@ implies s == value@ && spec_sized_bytes(b) == rest@ by {
                    lemma_concat_prefix(spec_sized_string(s), spec_sized_bytes(b));
                    lemma_sized_string_unique(s, value@, bytes@);
                    assert(rest@ =~= bytes@.subrange(n as int, bytes@.len() as int));
                }
            }
            match decode_sized_bytes(rest) {
                Err(e) => {
                    proof {
                        assert forall|s: Seq<char>, b: Seq<u8>|
                            spec_string_fits(s) && spec_bytes_fit(
                                b,
                            ) implies #[trigger] spec_string_then_bytes(s, b) != bytes@ by {
                            if spec_string_then_bytes(s, b) == bytes@ {
                                assert(spec_sized_bytes(b) =~= rest@.subrange(
                                    0,
                                    spec_sized_bytes(b).len() as int,
                                ));
                                assert(spec_sized_bytes(b).is_prefix_of(rest@));
                            }
                        }
                    }
                    Err(e)
                },
                Ok((content, m)) => {
                    if rest.len() != m {
                        proof {
                            assert forall|s: Seq<char>, b: Seq<u8>|
                                spec_string_fits(s) && spec_bytes_fit(
                                    b,
                                ) implies #[trigger] spec_string_then_bytes(s, b) != bytes@ by {
                                if spec_string_then_bytes(s, b) == bytes@ {
                                    assert(spec_sized_bytes(b).is_prefix_of(rest@)) by {
                                        assert(spec_sized_bytes(b) =~= rest@.subrange(
                                            0,
                                            spec_sized_bytes(b).len() as int,
                                        ));
                                    }
                                    lemma_sized_bytes_unique(b, content@, rest@);
                                }
                            }
                        }
                        return Err(invalid_data("payload length mismatch"));
                    }
                    proof {
                        assert(spec_sized_string(value@) =~= bytes@.subrange(0, n as int));
                        assert(spec_sized_bytes(content@) =~= rest@);
                        assert(spec_string_then_bytes(value@, content@) =~= bytes@);
                    }
                    Ok((value, content))
                },
            }
        },
    }
}

/// A string and byte string pair is determined by its wire form.
pub proof fn lemma_string_then_bytes_injective(s1: Seq<char>, b1: Seq<u8>, s2: Seq<char>, b2: Seq<u8>)
    requires
        spec_string_fits(s1),
        spec_string_fits(s2),
        spec_bytes_fit(b1),
        spec_bytes_fit(b2),
        spec_string_then_bytes(s1, b1) == spec_string_then_bytes(s2, b2),
    ensures
        s1 == s2,
        b1 == b2,
{
    let w = spec_string_then_bytes(s1, b1);
    lemma_concat_prefix(spec_sized_string(s1), spec_sized_bytes(b1));
    lemma_concat_prefix(spec_sized_string(s2), spec_sized_bytes(b2));
    lemma_sized_string_unique(s1, s2, w);
    lemma_sized_bytes_injective(b1, b2);
}

/// Splitting `a + b` at `a`'s length gives back `a` and `b`.
pub proof fn lemma_split_at(a: Seq<u8>, b: Seq<u8>)
    ensures
        (a + b).subrange(0, a.len() as int) == a,
        (a + b).subrange(a.len() as int, (a + b).len() as int) == b,
        (a + b).len() == a.len() + b.len(),
{
    assert((a + b).subrange(0, a.len() as int) =~= a);
    assert((a + b).subrange(a.len() as int, (a + b).len() as int) =~= b);
}

/// A boolean byte followed by a length-prefixed string.
pub open spec fn spec_bool_then_string(b: bool, s: Seq<char>) -> Seq<u8> {
    seq![spec_bool_byte(b)] + spec_sized_string(s)
}

/// Decodes exactly a boolean byte followed by a length-prefixed string;
/// fails exactly when `bytes` is not the wire form of any such pair.
pub fn decode_bool_then_string(bytes: &[u8], payload_name: &str) -> (r: Result<
    (bool, String),
    PayloadError,
>)
    ensures
        match r {
            Ok((b, s)) => spec_string_fits(s@) && spec_bool_then_string(b, s@) == bytes@,
            Err(e) => e is InvalidData && forall|b: bool, s: Seq<char>|
                spec_string_fits(s) ==> #[trigger] spec_bool_then_string(b, s) != bytes@,
        },
{
    if bytes.len() == 0 {
        return Err(invalid_data_named(payload_name, " payload too short"));
    }
    let tail = &bytes[1..bytes.len()];
    proof {
        assert forall|b: bool, s: Seq<char>| #[trigger]
            spec_bool_then_string(b, s) == bytes@ implies spec_sized_string(s) == tail@
            && bytes@[0] == spec_bool_byte(b) by {
            lemma_split_at(seq![spec_bool_byte(b)], spec_sized_string(s));
        }
    }
    match decode_bool(bytes[0], payload_name) {
        Err(e) => Err(e),
        Ok(flag) => {
            match decode_exact_string(tail, payload_name) {
                Err(e) => Err(e),
                Ok(value) => {
                    proof {
                        assert(spec_bool_then_string(flag, value@) =~= bytes@);
                    }
                    Ok((flag, value))
                },
            }
        },
    }
}

/// A boolean and string pair is determined by its wire form.
pub proof fn lemma_bool_then_string_injective(b1: bool, s1: Seq<char>, b2: bool, s2: Seq<char>)
    requires
        spec_string_fits(s1),
        spec_string_fits(s2),
        spec_bool_then_string(b1, s1) == spec_bool_then_string(b2, s2),
    ensures
        b1 == b2,
        s1 == s2,
{
    lemma_split_at(seq![spec_bool_byte(b1)], spec_sized_string(s1));
    lemma_split_at(seq![spec_bool_byte(b2)], spec_sized_string(s2));
    assert(spec_bool_then_string(b1, s1)[0] == spec_bool_byte(b1));
    lemma_sized_string_injective(s1, s2);
}

/// A length-prefixed string followed by fixed-length bytes.
pub open spec fn spec_string_then_fixed(s: Seq<char>, t: Seq<u8>) -> Seq<u8> {
    spec_sized_string(s) + t
}

/// Decodes exactly a length-prefixed string followed by `tail_len` bytes;
/// fails exactly when `bytes` is not the wire form of any such pair.
pub fn decode_string_then_fixed<'a>(bytes: &'a [u8], tail_len: usize, payload_name: &str) -> (r:
    Result<(String, &'a [u8]), PayloadError>)
    ensures
        match r {
            Ok((s, t)) => spec_string_fits(s@) && t@.len() == tail_len && spec_string_then_fixed(
                s@,
                t@,
            ) == bytes@,
            Err(e) => e is InvalidData && forall|s: Seq<char>, t: Seq<u8>|
                spec_string_fits(s) && t.len() == tail_len ==> #[trigger] spec_string_then_fixed(
                    s,
                    t,
                ) != bytes@,
        },
{
    let (value, consumed) = match decode_sized_string(bytes) {
        Ok(x) => x,
        Err(e) => {
            proof {
                assert forall|s: Seq<char>, t: Seq<u8>|
                    spec_string_fits(s) && t.len() == tail_len implies #[trigger] spec_string_then_fixed(
                    s,
                    t,
                ) != bytes@ by {
                    lemma_concat_prefix(spec_sized_string(s), t);
                }
            }
            return Err(e);
        },
    };
    let after = &bytes[consumed..bytes.len()];
    proof {
        assert forall|s: Seq<char>, t: Seq<u8>|
            spec_string_fits(s) && #[trigger] spec_string_then_fixed(s, t) == bytes@ implies t
            == after@ by {
            lemma_concat_prefix(spec_sized_string(s), t);
            lemma_sized_string_unique(s, value@, bytes@);
        }
    }
    if after.len() != tail_len {
        if after.len() < tail_len {
            return Err(invalid_data_named(payload_name, " too short for key material"));
        }
        return Err(invalid_data_named(payload_name, " payload length mismatch"));
    }
    proof {
        assert(bytes@ =~= bytes@.subrange(0, consumed as int) + after@);
    }
    Ok((value, after))
}

/// A string and fixed-length tail are determined by their wire form.
pub proof fn lemma_string_then_fixed_injective(
    s1: Seq<char>,
    t1: Seq<u8>,
    s2: Seq<char>,
    t2: Seq<u8>,
)
    requires
        spec_string_fits(s1),
        spec_string_fits(s2),
        spec_string_then_fixed(s1, t1) == spec_string_then_fixed(s2, t2),
    ensures
        s1 == s2,
        t1 == t2,
{
    let w = spec_string_then_fixed(s1, t1);
    lemma_concat_prefix(spec_sized_string(s1), t1);
    lemma_concat_prefix(spec_sized_string(s2), t2);
    lemma_sized_string_unique(s1, s2, w);
}

/// Reads a slice of exactly `N` bytes into an array.
pub fn array_from_slice<const N: usize>(s: &[u8]) -> (a: [u8; N])
    requires
        s@.len() == N,
    ensures
        a@ == s@,
{
    let mut a = [0u8; N];
    let mut i: usize = 0;
    while i < N
        invariant
            i <= N,
            s@.len() == N,
            a@.len() == N,
            forall|j: int| 0 <= j < i ==> a@[j] == s@[j],
        decreases N - i,
    {
        a[i] = s[i];
        i = i + 1;
    }
    assert(a@ =~= s@);
    a
}

/// Decodes a canonical boolean byte: 0 is false, 1 is true, anything else
/// is refused.
pub fn decode_bool(value: u8, field_name: &str) -> (r: Result<bool, PayloadError>)
    ensures
        match r {
            Ok(b) => spec_bool_byte(b) == value,
            Err(e) => value != 0 && value != 1 && (e matches PayloadError::InvalidData(m) && m@
                == field_name@ + " must be encoded as 0 or 1"@),
        },
        value == 0 || value == 1 ==> r is Ok,
{
    match value {
        0 => Ok(false),
        1 => Ok(true),
        _ => Err(invalid_data_named(field_name, " must be encoded as 0 or 1")),
    }
}

/// The wire byte of a boolean.
pub fn bool_byte(b: bool) -> (r: u8)
    ensures
        r == spec_bool_byte(b),
{
    if b {
        1
    } else {
        0
    }
}

/// Booleans travel as one byte: 1 for true, 0 for false.
pub proof fn lemma_bool_wire_byte(b: bool)
    ensures
        spec_bool_byte(b) == 1 <==> b,
        spec_bool_byte(b) == 0 <==> !b,
{
}

} // verus!
