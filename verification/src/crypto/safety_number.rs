//! Safety numbers: human-comparable fingerprints of end-to-end identity
//! keys.
//!
//! Two users who compare the same safety number through a channel the
//! server does not control (in person, a call, a QR scan) know they hold
//! each other's real keys. Each party's fingerprint is an iterated SHA-256
//! of its identifier and its whole public key bundle; the two fingerprints,
//! ordered by identifier, give 60 decimal digits in 12 groups of 5.
use crate::crypto::e2e::E2ePublicKey;
use crate::crypto::primitives::{sha256, spec_sha256};
use crate::error::ProtocolError;
use crate::text::{digit_str, spec_digit_char};
use vstd::prelude::*;
use vstd::string::StringSliceAdditionalSpecFns;

verus! {

/// Number of extra hash rounds applied on top of the initial digest. They
/// slow down a brute-force search for a second key whose truncated
/// fingerprint collides with a target's.
pub const FINGERPRINT_ITERATIONS: usize = 5200usize;

/// Length of one party's fingerprint digest, in bytes.
pub const FINGERPRINT_LEN: usize = 32usize;

/// How many of the fingerprint bytes become decimal digits: 6 chunks of
/// 5 bytes, the last 2 bytes are not used.
pub const DIGIT_SOURCE_LEN: usize = 30usize;

/// The digest after `rounds` extra rounds: the first digest hashes the
/// identifier then the key bytes; each round hashes the running digest
/// followed by the identifier and the key bytes again.
pub open spec fn spec_fingerprint_rounds(id: Seq<u8>, key: Seq<u8>, rounds: nat) -> Seq<u8>
    decreases rounds,
{
    if rounds == 0 {
        spec_sha256(id + key)
    } else {
        spec_sha256(spec_fingerprint_rounds(id, key, (rounds - 1) as nat) + id + key)
    }
}

/// One party's fingerprint, from the bytes of its identifier and of its
/// public key bundle.
pub open spec fn spec_fingerprint(id: Seq<u8>, key: Seq<u8>) -> Seq<u8> {
    spec_fingerprint_rounds(id, key, FINGERPRINT_ITERATIONS as nat)
}

/// Byte-wise lexicographic order, the order of Rust's `str` comparison:
/// a proper prefix comes first.
pub open spec fn spec_bytes_le(a: Seq<u8>, b: Seq<u8>) -> bool
    decreases a.len(),
{
    if a.len() == 0 {
        true
    } else if b.len() == 0 {
        false
    } else if a[0] != b[0] {
        a[0] < b[0]
    } else {
        spec_bytes_le(a.drop_first(), b.drop_first())
    }
}

/// Whether a character is an ASCII decimal digit.
pub open spec fn spec_is_digit(c: char) -> bool {
    '0' <= c && c <= '9'
}

/// `value mod 100000` written with exactly five decimal digits, zero
/// padded.
pub open spec fn spec_digit_group(value: int) -> Seq<char> {
    let n = value % 100000;
    seq![
        spec_digit_char(n / 10000),
        spec_digit_char(n / 1000 % 10),
        spec_digit_char(n / 100 % 10),
        spec_digit_char(n / 10 % 10),
        spec_digit_char(n % 10),
    ]
}

/// The `i`-th 5-byte chunk of a fingerprint read as a big-endian integer.
pub open spec fn spec_chunk_value(fp: Seq<u8>, i: int) -> int {
    fp[5 * i] * 0x1_0000_0000 + fp[5 * i + 1] * 0x100_0000 + fp[5 * i + 2] * 0x1_0000
        + fp[5 * i + 3] * 0x100 + fp[5 * i + 4]
}

/// The six digit groups of a fingerprint.
pub open spec fn spec_digit_groups(fp: Seq<u8>) -> Seq<Seq<char>> {
    Seq::new(6, |i: int| spec_digit_group(spec_chunk_value(fp, i)))
}

/// The groups joined with single spaces.
pub open spec fn spec_join(groups: Seq<Seq<char>>) -> Seq<char>
    decreases groups.len(),
{
    if groups.len() == 0 {
        Seq::empty()
    } else if groups.len() == 1 {
        groups[0]
    } else {
        spec_join(groups.drop_last()) + seq![' '] + groups.last()
    }
}

/// The safety number of a conversation: both fingerprints, the one of the
/// identifier that comes first in byte order first, as 12 groups of five
/// digits separated by spaces.
pub open spec fn spec_safety_number(
    local_id: Seq<u8>,
    local_key: Seq<u8>,
    remote_id: Seq<u8>,
    remote_key: Seq<u8>,
) -> Seq<char> {
    let local_fp = spec_fingerprint(local_id, local_key);
    let remote_fp = spec_fingerprint(remote_id, remote_key);
    let (first, second) = if spec_bytes_le(local_id, remote_id) {
        (local_fp, remote_fp)
    } else {
        (remote_fp, local_fp)
    };
    spec_join(spec_digit_groups(first) + spec_digit_groups(second))
}

/// The public key bundle's fields concatenated. Every field has a fixed
/// length, so no length prefixes are needed.
fn serialize_public_key(public_key: &E2ePublicKey) -> (out: Vec<u8>)
    ensures
        out@ == public_key.spec_bytes(),
{
    let mut out: Vec<u8> = Vec::with_capacity(32 + 1184 + 1952);
    out.extend_from_slice(public_key.x25519_public.as_slice());
    out.extend_from_slice(public_key.ml_kem_ek.as_slice());
    out.extend_from_slice(public_key.dsa_verifying_key.as_slice());
    assert(out@ =~= public_key.spec_bytes());
    out
}

/// Computes one party's iterated fingerprint from its stable identifier
/// and its whole public key bundle: substituting any of the three keys
/// changes what is hashed.
pub fn compute_fingerprint(identifier: &str, public_key: &E2ePublicKey) -> (fp: [u8; 32])
    ensures
        fp@ == spec_fingerprint(identifier.spec_bytes(), public_key.spec_bytes()),
{
    let key_bytes = serialize_public_key(public_key);
    let id_bytes = identifier.as_bytes();
    let mut first: Vec<u8> = Vec::new();
    first.extend_from_slice(id_bytes);
    first.extend_from_slice(key_bytes.as_slice());
    assert(first@ =~= id_bytes@ + key_bytes@);
    let mut digest = sha256(first.as_slice());
    let mut i: usize = 0;
    while i < FINGERPRINT_ITERATIONS
        invariant
            i <= FINGERPRINT_ITERATIONS,
            id_bytes@ == identifier.spec_bytes(),
            key_bytes@ == public_key.spec_bytes(),
            digest@ == spec_fingerprint_rounds(id_bytes@, key_bytes@, i as nat),
        decreases FINGERPRINT_ITERATIONS - i,
    {
        let mut round: Vec<u8> = Vec::new();
        round.extend_from_slice(digest.as_slice());
        round.extend_from_slice(id_bytes);
        round.extend_from_slice(key_bytes.as_slice());
        assert(round@ =~= digest@ + id_bytes@ + key_bytes@);
        digest = sha256(round.as_slice());
        i = i + 1;
    }
    digest
}

/// `value mod 100000` as five zero-padded decimal digits.
fn digit_group(value: u64) -> (s: String)
    ensures
        s@ == spec_digit_group(value as int),
{
    let n = value % 100000;
    let mut s = String::new();
    s.append(digit_str(n / 10000));
    s.append(digit_str(n / 1000 % 10));
    s.append(digit_str(n / 100 % 10));
    s.append(digit_str(n / 10 % 10));
    s.append(digit_str(n % 10));
    assert(s@ =~= spec_digit_group(value as int));
    s
}

/// Splits a fingerprint into six 5-digit decimal groups: the first 30
/// bytes in 5-byte chunks, each read as a big-endian 40-bit integer and
/// reduced mod 100000.
fn digit_groups(fingerprint: &[u8; 32]) -> (groups: Vec<String>)
    ensures
        groups@.len() == 6,
        forall|i: int| 0 <= i < 6 ==> #[trigger] groups@[i]@ == spec_digit_groups(fingerprint@)[i],
{
    let mut groups: Vec<String> = Vec::new();
    let mut c: usize = 0;
    while c < DIGIT_SOURCE_LEN / 5
        invariant
            c <= 6,
            groups@.len() == c,
            forall|i: int| 0 <= i < c ==> #[trigger] groups@[i]@ == spec_digit_groups(fingerprint@)[i],
        decreases 6 - c,
    {
        let at = 5 * c;
        let value: u64 = fingerprint[at] as u64 * 0x1_0000_0000 + fingerprint[at + 1] as u64
            * 0x100_0000 + fingerprint[at + 2] as u64 * 0x1_0000 + fingerprint[at + 3] as u64
            * 0x100 + fingerprint[at + 4] as u64;
        assert(value as int == spec_chunk_value(fingerprint@, c as int));
        groups.push(digit_group(value));
        c = c + 1;
    }
    groups
}

/// Whether `a` comes no later than `b` in byte-wise lexicographic order.
fn bytes_le(a: &[u8], b: &[u8]) -> (r: bool)
    ensures
        r == spec_bytes_le(a@, b@),
{
    let mut i: usize = 0;
    assert(a@.subrange(0, a@.len() as int) =~= a@);
    assert(b@.subrange(0, b@.len() as int) =~= b@);
    while i < a.len() && i < b.len() && a[i] == b[i]
        invariant
            i <= a@.len(),
            i <= b@.len(),
            spec_bytes_le(a@, b@) == spec_bytes_le(
                a@.subrange(i as int, a@.len() as int),
                b@.subrange(i as int, b@.len() as int),
            ),
        decreases a.len() - i,
    {
        let ghost sa = a@.subrange(i as int, a@.len() as int);
        let ghost sb = b@.subrange(i as int, b@.len() as int);
        assert(sa.drop_first() =~= a@.subrange(i + 1, a@.len() as int));
        assert(sb.drop_first() =~= b@.subrange(i + 1, b@.len() as int));
        i = i + 1;
    }
    if i == a.len() {
        true
    } else if i == b.len() {
        false
    } else {
        a[i] < b[i]
    }
}

/// Computes the combined, human-comparable safety number for a
/// conversation between two identities: 60 decimal digits in 12 groups of
/// 5, space-separated. The fingerprints are ordered by identifier, not by
/// who is local, so both users compute the same string.
pub fn safety_number(
    local_id: &str,
    local_key: &E2ePublicKey,
    remote_id: &str,
    remote_key: &E2ePublicKey,
) -> (s: String)
    ensures
        s@ == spec_safety_number(
            local_id.spec_bytes(),
            local_key.spec_bytes(),
            remote_id.spec_bytes(),
            remote_key.spec_bytes(),
        ),
{
    let local_fingerprint = compute_fingerprint(local_id, local_key);
    let remote_fingerprint = compute_fingerprint(remote_id, remote_key);
    let (first, second) = if bytes_le(local_id.as_bytes(), remote_id.as_bytes()) {
        (local_fingerprint, remote_fingerprint)
    } else {
        (remote_fingerprint, local_fingerprint)
    };
    let first_groups = digit_groups(&first);
    let second_groups = digit_groups(&second);
    let ghost all = spec_digit_groups(first@) + spec_digit_groups(second@);
    let mut out = String::new();
    let mut i: usize = 0;
    while i < 12
        invariant
            i <= 12,
            first_groups@.len() == 6,
            second_groups@.len() == 6,
            forall|j: int| 0 <= j < 6 ==> #[trigger] first_groups@[j]@ == all[j],
            forall|j: int| 0 <= j < 6 ==> #[trigger] second_groups@[j]@ == all[j + 6],
            all.len() == 12,
            out@ == spec_join(all.take(i as int)),
        decreases 12 - i,
    {
        let ghost prefix = out@;
        if i > 0 {
            out.append(" ");
        }
        if i < 6 {
            out.append(first_groups[i].as_str());
        } else {
            out.append(second_groups[i - 6].as_str());
        }
        proof {
            reveal_strlit(" ");
            let next = all.take(i + 1);
            assert(next.drop_last() =~= all.take(i as int));
            assert(next.last() == all[i as int]);
            if i == 0 {
                assert(out@ =~= all[0]);
            } else {
                assert(out@ =~= prefix + seq![' '] + all[i as int]);
            }
        }
        i = i + 1;
    }
    assert(all.take(12) =~= all);
    out
}

/// Compares a freshly fetched public key bundle against the one pinned for
/// the same identity: succeeds exactly when all three keys are unchanged,
/// and otherwise names the affected identity.
pub fn verify_key_unchanged(
    identifier: &str,
    pinned: &E2ePublicKey,
    fetched: &E2ePublicKey,
) -> (r: Result<(), ProtocolError>)
    ensures
        r is Ok <==> pinned.spec_bytes() == fetched.spec_bytes(),
        r matches Err(e) ==> e matches ProtocolError::IdentityKeyChanged { identifier: id }
            && id@ == identifier@,
{
    let a = serialize_public_key(pinned);
    let b = serialize_public_key(fetched);
    if bytes_equal(a.as_slice(), b.as_slice()) {
        Ok(())
    } else {
        Err(ProtocolError::IdentityKeyChanged { identifier: identifier.to_owned() })
    }
}

/// Whether two byte strings are equal.
fn bytes_equal(a: &[u8], b: &[u8]) -> (r: bool)
    ensures
        r == (a@ == b@),
{
    if a.len() != b.len() {
        return false;
    }
    let mut i: usize = 0;
    while i < a.len()
        invariant
            i <= a@.len(),
            a@.len() == b@.len(),
            forall|j: int| 0 <= j < i ==> a@[j] == b@[j],
        decreases a.len() - i,
    {
        if a[i] != b[i] {
            return false;
        }
        i = i + 1;
    }
    assert(a@ =~= b@);
    true
}

/// Byte-wise lexicographic order is total.
pub proof fn lemma_bytes_le_total(a: Seq<u8>, b: Seq<u8>)
    ensures
        spec_bytes_le(a, b) || spec_bytes_le(b, a),
    decreases a.len(),
{
    if a.len() > 0 && b.len() > 0 && a[0] == b[0] {
        lemma_bytes_le_total(a.drop_first(), b.drop_first());
    }
}

/// Byte-wise lexicographic order is antisymmetric.
pub proof fn lemma_bytes_le_antisymmetric(a: Seq<u8>, b: Seq<u8>)
    requires
        spec_bytes_le(a, b),
        spec_bytes_le(b, a),
    ensures
        a == b,
    decreases a.len(),
{
    if a.len() == 0 {
        assert(b.len() == 0);
        assert(a =~= b);
    } else {
        lemma_bytes_le_antisymmetric(a.drop_first(), b.drop_first());
        assert(a =~= seq![a[0]] + a.drop_first());
        assert(b =~= seq![b[0]] + b.drop_first());
    }
}

/// The safety number does not depend on which side computes it: swapping
/// the local and the remote identity gives the same string, whenever the
/// two identifiers differ (or the two keys are the same).
pub proof fn lemma_safety_number_symmetric(
    local_id: Seq<u8>,
    local_key: Seq<u8>,
    remote_id: Seq<u8>,
    remote_key: Seq<u8>,
)
    requires
        local_id != remote_id || local_key == remote_key,
    ensures
        spec_safety_number(local_id, local_key, remote_id, remote_key) == spec_safety_number(
            remote_id,
            remote_key,
            local_id,
            local_key,
        ),
{
    lemma_bytes_le_total(local_id, remote_id);
    if spec_bytes_le(local_id, remote_id) && spec_bytes_le(remote_id, local_id) {
        lemma_bytes_le_antisymmetric(local_id, remote_id);
    }
}

/// Joining `n >= 1` groups of five digits gives `6n - 1` characters: a
/// space exactly at the positions `5, 11, 17, ...`, a digit everywhere
/// else.
proof fn lemma_join_shape(groups: Seq<Seq<char>>)
    requires
        groups.len() >= 1,
        forall|i: int|
            0 <= i < groups.len() ==> (#[trigger] groups[i]).len() == 5 && forall|j: int|
                0 <= j < 5 ==> spec_is_digit(#[trigger] groups[i][j]),
    ensures
        spec_join(groups).len() == 6 * groups.len() - 1,
        forall|j: int|
            0 <= j < spec_join(groups).len() ==> ((#[trigger] spec_join(groups)[j] == ' ') <==> j
                % 6 == 5),
        forall|j: int|
            0 <= j < spec_join(groups).len() && j % 6 != 5 ==> spec_is_digit(
                #[trigger] spec_join(groups)[j],
            ),
    decreases groups.len(),
{
    if groups.len() == 1 {
        assert(groups[0].len() == 5);
    } else {
        let init = groups.drop_last();
        assert forall|i: int| 0 <= i < init.len() implies (#[trigger] init[i]).len() == 5
            && forall|j: int| 0 <= j < 5 ==> spec_is_digit(#[trigger] init[i][j]) by {
            assert(init[i] == groups[i]);
        }
        lemma_join_shape(init);
        let n = groups.len() as int;
        let head = spec_join(init);
        let last = groups.last();
        assert(last == groups[n - 1]);
        let whole = spec_join(groups);
        assert(whole == head + seq![' '] + last);
        assert forall|j: int| 0 <= j < whole.len() implies ((#[trigger] whole[j] == ' ') <==> j % 6
            == 5) && (j % 6 != 5 ==> spec_is_digit(whole[j])) by {
            if j < head.len() {
                assert(whole[j] == head[j]);
            } else if j == head.len() {
                assert(whole[j] == ' ');
            } else {
                let k = j - head.len() - 1;
                assert(whole[j] == last[k]);
                assert(spec_is_digit(last[k]));
            }
        }
    }
}

/// Every safety number is 71 characters: 12 groups of 5 decimal digits
/// with a single space between neighbouring groups.
pub proof fn lemma_safety_number_shape(
    local_id: Seq<u8>,
    local_key: Seq<u8>,
    remote_id: Seq<u8>,
    remote_key: Seq<u8>,
)
    ensures
        spec_safety_number(local_id, local_key, remote_id, remote_key).len() == 71,
        forall|j: int|
            0 <= j < 71 ==> ((#[trigger] spec_safety_number(
                local_id,
                local_key,
                remote_id,
                remote_key,
            )[j] == ' ') <==> j % 6 == 5),
        forall|j: int|
            0 <= j < 71 && j % 6 != 5 ==> spec_is_digit(
                #[trigger] spec_safety_number(local_id, local_key, remote_id, remote_key)[j],
            ),
{
    let local_fp = spec_fingerprint(local_id, local_key);
    let remote_fp = spec_fingerprint(remote_id, remote_key);
    let (first, second) = if spec_bytes_le(local_id, remote_id) {
        (local_fp, remote_fp)
    } else {
        (remote_fp, local_fp)
    };
    let groups = spec_digit_groups(first) + spec_digit_groups(second);
    assert forall|i: int| 0 <= i < groups.len() implies (#[trigger] groups[i]).len() == 5
        && forall|j: int| 0 <= j < 5 ==> spec_is_digit(#[trigger] groups[i][j]) by {
        lemma_digit_group_digits(if i < 6 { spec_chunk_value(first, i) } else { spec_chunk_value(second, i - 6) });
    }
    lemma_join_shape(groups);
}

/// A digit group is five decimal digits.
proof fn lemma_digit_group_digits(value: int)
    ensures
        spec_digit_group(value).len() == 5,
        forall|j: int| 0 <= j < 5 ==> spec_is_digit(#[trigger] spec_digit_group(value)[j]),
{
    let n = value % 100000;
    assert(0 <= n / 10000 < 10);
    assert forall|d: int| 0 <= d < 10 implies spec_is_digit(#[trigger] spec_digit_char(d)) by {
        assert('0' as int == 48);
        assert('9' as int == 57);
    }
    assert(spec_is_digit(spec_digit_char(n / 10000)));
    assert(spec_is_digit(spec_digit_char(n / 1000 % 10)));
    assert(spec_is_digit(spec_digit_char(n / 100 % 10)));
    assert(spec_is_digit(spec_digit_char(n / 10 % 10)));
    assert(spec_is_digit(spec_digit_char(n % 10)));
}

/// Every byte of the public key bundle goes into the fingerprint, in the
/// order X25519 key, ML-KEM encapsulation key, ML-DSA verifying key: the
/// first digest hashes the identifier and all three keys, every later
/// round hashes the previous digest, the identifier and all three keys
/// again, and the fingerprint is the digest of the last round. So a bundle
/// whose ML-DSA key (or any other key) was substituted is hashed from
/// different input.
pub proof fn lemma_fingerprint_hashes_whole_bundle(id: Seq<u8>, pk: E2ePublicKey, round: nat)
    requires
        1 <= round <= FINGERPRINT_ITERATIONS,
    ensures
        pk.spec_bytes().len() == 3168,
        pk.spec_bytes().subrange(1216, 3168) == pk.dsa_verifying_key@,
        spec_fingerprint_rounds(id, pk.spec_bytes(), 0) == spec_sha256(
            id + pk.x25519_public@ + pk.ml_kem_ek@ + pk.dsa_verifying_key@,
        ),
        spec_fingerprint_rounds(id, pk.spec_bytes(), round) == spec_sha256(
            spec_fingerprint_rounds(id, pk.spec_bytes(), (round - 1) as nat) + id
                + pk.x25519_public@ + pk.ml_kem_ek@ + pk.dsa_verifying_key@,
        ),
        spec_fingerprint(id, pk.spec_bytes()) == spec_sha256(
            spec_fingerprint_rounds(id, pk.spec_bytes(), (FINGERPRINT_ITERATIONS - 1) as nat) + id
                + pk.x25519_public@ + pk.ml_kem_ek@ + pk.dsa_verifying_key@,
        ),
{
    let key = pk.spec_bytes();
    assert(key.subrange(1216, 3168) =~= pk.dsa_verifying_key@);
    assert(id + key =~= id + pk.x25519_public@ + pk.ml_kem_ek@ + pk.dsa_verifying_key@);
    assert(spec_fingerprint_rounds(id, key, (round - 1) as nat) + id + key
        =~= spec_fingerprint_rounds(id, key, (round - 1) as nat) + id + pk.x25519_public@
        + pk.ml_kem_ek@ + pk.dsa_verifying_key@);
    let last = spec_fingerprint_rounds(id, key, (FINGERPRINT_ITERATIONS - 1) as nat);
    assert(last + id + key =~= last + id + pk.x25519_public@ + pk.ml_kem_ek@
        + pk.dsa_verifying_key@);
}

/// The identifier order is lexicographic over bytes: a prefix comes no
/// later than any extension of it, and at the first differing byte the
/// smaller byte comes first (and not the other way round).
pub proof fn lemma_bytes_le_is_lexicographic(a: Seq<u8>, b: Seq<u8>, i: int)
    requires
        0 <= i <= a.len(),
        i <= b.len(),
        a.subrange(0, i) == b.subrange(0, i),
    ensures
        i == a.len() ==> spec_bytes_le(a, b),
        i < a.len() && i < b.len() && a[i] < b[i] ==> spec_bytes_le(a, b) && !spec_bytes_le(b, a),
    decreases i,
{
    if i > 0 {
        assert(a[0] == a.subrange(0, i)[0]);
        assert(b[0] == b.subrange(0, i)[0]);
        assert(a.drop_first().subrange(0, i - 1) =~= a.subrange(0, i).drop_first());
        assert(b.drop_first().subrange(0, i - 1) =~= b.subrange(0, i).drop_first());
        lemma_bytes_le_is_lexicographic(a.drop_first(), b.drop_first(), i - 1);
        if i < a.len() && i < b.len() {
            assert(a.drop_first()[i - 1] == a[i]);
            assert(b.drop_first()[i - 1] == b[i]);
        }
    }
}

/// The safety number begins with the six digit groups of the fingerprint
/// of whichever identifier comes first in byte order, followed by a space.
pub proof fn lemma_safety_number_starts_with_first_identifier(
    local_id: Seq<u8>,
    local_key: Seq<u8>,
    remote_id: Seq<u8>,
    remote_key: Seq<u8>,
)
    ensures
        spec_bytes_le(local_id, remote_id) ==> spec_safety_number(
            local_id,
            local_key,
            remote_id,
            remote_key,
        ).subrange(0, 35) == spec_join(spec_digit_groups(spec_fingerprint(local_id, local_key))),
        !spec_bytes_le(local_id, remote_id) ==> spec_safety_number(
            local_id,
            local_key,
            remote_id,
            remote_key,
        ).subrange(0, 35) == spec_join(spec_digit_groups(spec_fingerprint(remote_id, remote_key))),
{
    let local_fp = spec_fingerprint(local_id, local_key);
    let remote_fp = spec_fingerprint(remote_id, remote_key);
    let first = if spec_bytes_le(local_id, remote_id) {
        local_fp
    } else {
        remote_fp
    };
    let second = if spec_bytes_le(local_id, remote_id) {
        remote_fp
    } else {
        local_fp
    };
    let all = spec_digit_groups(first) + spec_digit_groups(second);
    lemma_join_prefix(all, 6);
    assert(all.take(6) =~= spec_digit_groups(first));
}

/// Joining a sequence of five-character groups: its first `k` groups,
/// joined, are a prefix of the whole.
proof fn lemma_join_prefix(groups: Seq<Seq<char>>, k: int)
    requires
        1 <= k <= groups.len(),
        forall|i: int| 0 <= i < groups.len() ==> (#[trigger] groups[i]).len() == 5,
    ensures
        spec_join(groups.take(k)).len() == 6 * k - 1,
        spec_join(groups).subrange(0, 6 * k - 1) == spec_join(groups.take(k)),
    decreases groups.len(),
{
    if groups.len() == k {
        assert(groups.take(k) =~= groups);
        lemma_join_len(groups);
    } else {
        let init = groups.drop_last();
        assert(init.take(k) =~= groups.take(k));
        lemma_join_prefix(init, k);
        lemma_join_len(init);
        assert(spec_join(groups) == spec_join(init) + seq![' '] + groups.last());
    }
}

/// Joining `n >= 1` five-character groups gives `6n - 1` characters.
proof fn lemma_join_len(groups: Seq<Seq<char>>)
    requires
        groups.len() >= 1,
        forall|i: int| 0 <= i < groups.len() ==> (#[trigger] groups[i]).len() == 5,
    ensures
        spec_join(groups).len() == 6 * groups.len() - 1,
    decreases groups.len(),
{
    if groups.len() > 1 {
        let init = groups.drop_last();
        assert forall|i: int| 0 <= i < init.len() implies (#[trigger] init[i]).len() == 5 by {
            assert(init[i] == groups[i]);
        }
        lemma_join_len(init);
        assert(groups.last() == groups[groups.len() - 1]);
    }
}

/// A digit group reads back, as a five-digit decimal number, as the value
/// it was made from, reduced mod 100000.
pub proof fn lemma_digit_group_value(value: int)
    requires
        value >= 0,
    ensures
        ({
            let g = spec_digit_group(value);
            (g[0] as int - 48) * 10000 + (g[1] as int - 48) * 1000 + (g[2] as int - 48) * 100
                + (g[3] as int - 48) * 10 + (g[4] as int - 48) == value % 100000
        }),
{
    let n = value % 100000;
    assert(0 <= n < 100000);
    assert forall|d: int| 0 <= d < 10 implies (#[trigger] spec_digit_char(d)) as int == d + 48 by {
    }
    assert(n == (n / 10000) * 10000 + (n / 1000 % 10) * 1000 + (n / 100 % 10) * 100 + (n / 10
        % 10) * 10 + n % 10) by (nonlinear_arith)
        requires
            0 <= n < 100000,
    ;
}

} // verus!
