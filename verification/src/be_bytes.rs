//! Big-endian encodings of fixed-width unsigned integers.
use vstd::prelude::*;

verus! {

/// The big-endian byte string of a `u16`.
pub open spec fn spec_u16_be(v: u16) -> Seq<u8> {
    seq![(v >> 8u16) as u8, v as u8]
}

/// The big-endian byte string of a `u32`.
pub open spec fn spec_u32_be(v: u32) -> Seq<u8> {
    seq![(v >> 24u32) as u8, (v >> 16u32) as u8, (v >> 8u32) as u8, v as u8]
}

/// The big-endian byte string of a `u64`.
pub open spec fn spec_u64_be(v: u64) -> Seq<u8> {
    seq![
        (v >> 56u64) as u8,
        (v >> 48u64) as u8,
        (v >> 40u64) as u8,
        (v >> 32u64) as u8,
        (v >> 24u64) as u8,
        (v >> 16u64) as u8,
        (v >> 8u64) as u8,
        v as u8,
    ]
}

/// The `u16` whose big-endian encoding is `b0 b1`.
pub open spec fn spec_be_u16(b0: u8, b1: u8) -> u16 {
    ((b0 as u16) << 8u16) | (b1 as u16)
}

/// The `u32` whose big-endian encoding is `b0 b1 b2 b3`.
pub open spec fn spec_be_u32(b0: u8, b1: u8, b2: u8, b3: u8) -> u32 {
    ((b0 as u32) << 24u32) | ((b1 as u32) << 16u32) | ((b2 as u32) << 8u32) | (b3 as u32)
}

/// The `u64` whose big-endian encoding is `b0 .. b7`.
pub open spec fn spec_be_u64(b0: u8, b1: u8, b2: u8, b3: u8, b4: u8, b5: u8, b6: u8, b7: u8) -> u64 {
    ((b0 as u64) << 56u64) | ((b1 as u64) << 48u64) | ((b2 as u64) << 40u64) | ((b3 as u64)
        << 32u64) | ((b4 as u64) << 24u64) | ((b5 as u64) << 16u64) | ((b6 as u64) << 8u64) | (
    b7 as u64)
}

/// The `u16` read from the first two bytes of `s`.
pub open spec fn spec_read_u16(s: Seq<u8>) -> u16 {
    spec_be_u16(s[0], s[1])
}

/// The `u32` read from the first four bytes of `s`.
pub open spec fn spec_read_u32(s: Seq<u8>) -> u32 {
    spec_be_u32(s[0], s[1], s[2], s[3])
}

/// The `u64` read from the first eight bytes of `s`.
pub open spec fn spec_read_u64(s: Seq<u8>) -> u64 {
    spec_be_u64(s[0], s[1], s[2], s[3], s[4], s[5], s[6], s[7])
}

/// Reading back a written `u16` gives the value; a two-byte string is the
/// encoding of the value read from it.
pub proof fn lemma_u16_be(v: u16, s: Seq<u8>)
    ensures
        spec_u16_be(v).len() == 2,
        spec_read_u16(spec_u16_be(v)) == v,
        s.len() == 2 ==> spec_u16_be(spec_read_u16(s)) == s,
{
    let b0 = (v >> 8u16) as u8;
    let b1 = v as u8;
    assert(((b0 as u16) << 8u16) | (b1 as u16) == v) by (bit_vector)
        requires
            b0 == (v >> 8u16) as u8,
            b1 == v as u8,
    ;
    if s.len() == 2 {
        let c0 = s[0];
        let c1 = s[1];
        let w = spec_be_u16(c0, c1);
        assert((w >> 8u16) as u8 == c0 && w as u8 == c1) by (bit_vector)
            requires
                w == ((c0 as u16) << 8u16) | (c1 as u16),
        ;
        assert(spec_u16_be(w) =~= s);
    }
}

/// Reading back a written `u32` gives the value; a four-byte string is the
/// encoding of the value read from it.
pub proof fn lemma_u32_be(v: u32, s: Seq<u8>)
    ensures
        spec_u32_be(v).len() == 4,
        spec_read_u32(spec_u32_be(v)) == v,
        s.len() == 4 ==> spec_u32_be(spec_read_u32(s)) == s,
{
    let b0 = (v >> 24u32) as u8;
    let b1 = (v >> 16u32) as u8;
    let b2 = (v >> 8u32) as u8;
    let b3 = v as u8;
    assert(((b0 as u32) << 24u32) | ((b1 as u32) << 16u32) | ((b2 as u32) << 8u32) | (b3 as u32)
        == v) by (bit_vector)
        requires
            b0 == (v >> 24u32) as u8,
            b1 == (v >> 16u32) as u8,
            b2 == (v >> 8u32) as u8,
            b3 == v as u8,
    ;
    if s.len() == 4 {
        let c0 = s[0];
        let c1 = s[1];
        let c2 = s[2];
        let c3 = s[3];
        let w = spec_be_u32(c0, c1, c2, c3);
        assert((w >> 24u32) as u8 == c0 && (w >> 16u32) as u8 == c1 && (w >> 8u32) as u8 == c2
            && w as u8 == c3) by (bit_vector)
            requires
                w == ((c0 as u32) << 24u32) | ((c1 as u32) << 16u32) | ((c2 as u32) << 8u32) | (
                c3 as u32),
        ;
        assert(spec_u32_be(w) =~= s);
    }
}

/// Reading back a written `u64` gives the value; an eight-byte string is
/// the encoding of the value read from it.
pub proof fn lemma_u64_be(v: u64, s: Seq<u8>)
    ensures
        spec_u64_be(v).len() == 8,
        spec_read_u64(spec_u64_be(v)) == v,
        s.len() == 8 ==> spec_u64_be(spec_read_u64(s)) == s,
{
    let b0 = (v >> 56u64) as u8;
    let b1 = (v >> 48u64) as u8;
    let b2 = (v >> 40u64) as u8;
    let b3 = (v >> 32u64) as u8;
    let b4 = (v >> 24u64) as u8;
    let b5 = (v >> 16u64) as u8;
    let b6 = (v >> 8u64) as u8;
    let b7 = v as u8;
    assert(((b0 as u64) << 56u64) | ((b1 as u64) << 48u64) | ((b2 as u64) << 40u64) | ((
    b3 as u64) << 32u64) | ((b4 as u64) << 24u64) | ((b5 as u64) << 16u64) | ((b6 as u64)
        << 8u64) | (b7 as u64) == v) by (bit_vector)
        requires
            b0 == (v >> 56u64) as u8,
            b1 == (v >> 48u64) as u8,
            b2 == (v >> 40u64) as u8,
            b3 == (v >> 32u64) as u8,
            b4 == (v >> 24u64) as u8,
            b5 == (v >> 16u64) as u8,
            b6 == (v >> 8u64) as u8,
            b7 == v as u8,
    ;
    if s.len() == 8 {
        let c0 = s[0];
        let c1 = s[1];
        let c2 = s[2];
        let c3 = s[3];
        let c4 = s[4];
        let c5 = s[5];
        let c6 = s[6];
        let c7 = s[7];
        let w = spec_be_u64(c0, c1, c2, c3, c4, c5, c6, c7);
        assert((w >> 56u64) as u8 == c0 && (w >> 48u64) as u8 == c1 && (w >> 40u64) as u8 == c2
            && (w >> 32u64) as u8 == c3 && (w >> 24u64) as u8 == c4 && (w >> 16u64) as u8 == c5
            && (w >> 8u64) as u8 == c6 && w as u8 == c7) by (bit_vector)
            requires
                w == ((c0 as u64) << 56u64) | ((c1 as u64) << 48u64) | ((c2 as u64) << 40u64) | ((
                c3 as u64) << 32u64) | ((c4 as u64) << 24u64) | ((c5 as u64) << 16u64) | ((
                c6 as u64) << 8u64) | (c7 as u64),
        ;
        assert(spec_u64_be(w) =~= s);
    }
}

/// Appends the big-endian encoding of `v` to `out`.
pub fn push_u16_be(out: &mut Vec<u8>, v: u16)
    ensures
        final(out)@ == old(out)@ + spec_u16_be(v),
{
    out.push((v >> 8u16) as u8);
    out.push(v as u8);
    assert(out@ =~= old(out)@ + spec_u16_be(v));
}

/// Appends the big-endian encoding of `v` to `out`.
pub fn push_u32_be(out: &mut Vec<u8>, v: u32)
    ensures
        final(out)@ == old(out)@ + spec_u32_be(v),
{
    out.push((v >> 24u32) as u8);
    out.push((v >> 16u32) as u8);
    out.push((v >> 8u32) as u8);
    out.push(v as u8);
    assert(out@ =~= old(out)@ + spec_u32_be(v));
}

/// Appends the big-endian encoding of `v` to `out`.
pub fn push_u64_be(out: &mut Vec<u8>, v: u64)
    ensures
        final(out)@ == old(out)@ + spec_u64_be(v),
{
    out.push((v >> 56u64) as u8);
    out.push((v >> 48u64) as u8);
    out.push((v >> 40u64) as u8);
    out.push((v >> 32u64) as u8);
    out.push((v >> 24u64) as u8);
    out.push((v >> 16u64) as u8);
    out.push((v >> 8u64) as u8);
    out.push(v as u8);
    assert(out@ =~= old(out)@ + spec_u64_be(v));
}

/// Reads a big-endian `u16` at `pos`.
pub fn read_u16_be(s: &[u8], pos: usize) -> (r: u16)
    requires
        pos + 2 <= s@.len(),
    ensures
        r == spec_read_u16(s@.subrange(pos as int, pos + 2)),
{
    ((s[pos] as u16) << 8u16) | (s[pos + 1] as u16)
}

/// Reads a big-endian `u32` at `pos`.
pub fn read_u32_be(s: &[u8], pos: usize) -> (r: u32)
    requires
        pos + 4 <= s@.len(),
    ensures
        r == spec_read_u32(s@.subrange(pos as int, pos + 4)),
{
    ((s[pos] as u32) << 24u32) | ((s[pos + 1] as u32) << 16u32) | ((s[pos + 2] as u32) << 8u32)
        | (s[pos + 3] as u32)
}

/// Reads a big-endian `u64` at `pos`.
pub fn read_u64_be(s: &[u8], pos: usize) -> (r: u64)
    requires
        pos + 8 <= s@.len(),
    ensures
        r == spec_read_u64(s@.subrange(pos as int, pos + 8)),
{
    ((s[pos] as u64) << 56u64) | ((s[pos + 1] as u64) << 48u64) | ((s[pos + 2] as u64) << 40u64)
        | ((s[pos + 3] as u64) << 32u64) | ((s[pos + 4] as u64) << 24u64) | ((s[pos + 5] as u64)
        << 16u64) | ((s[pos + 6] as u64) << 8u64) | (s[pos + 7] as u64)
}

} // verus!
