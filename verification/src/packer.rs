//! Big-endian binary packing compatible with avalanchego's wire format.
//!
//! Writers append to a byte vector; readers take a byte slice and an offset
//! and fail when the input ends too early.
use vstd::prelude::*;
use vstd::slice::slice_subrange;

verus! {

// ---------------------------------------------------------------------------
// Encodings of fixed-width integers
// ---------------------------------------------------------------------------

/// Big-endian bytes of a `u16`.
pub open spec fn u16_bytes(v: u16) -> Seq<u8> {
    seq![(v >> 8u16) as u8, v as u8]
}

/// Big-endian bytes of a `u32`.
pub open spec fn u32_bytes(v: u32) -> Seq<u8> {
    seq![(v >> 24u32) as u8, (v >> 16u32) as u8, (v >> 8u32) as u8, v as u8]
}

/// Big-endian bytes of a `u64`.
pub open spec fn u64_bytes(v: u64) -> Seq<u8> {
    seq![
        (v >> 56u64) as u8,
        (v >> 48u64) as u8,
        (v >> 40u64) as u8,
        (v >> 32u64) as u8,
        (v >> 24u64) as u8,
        (v >> 16u64) as u8,
        (v >> 8u64) as u8,
        v as u8,
    ]
}

/// The `u16` whose big-endian bytes are `b0, b1`.
pub open spec fn u16_of(b0: u8, b1: u8) -> u16 {
    ((b0 as u16) << 8u16) | (b1 as u16)
}

/// The `u32` whose big-endian bytes are `b0 .. b3`.
pub open spec fn u32_of(b0: u8, b1: u8, b2: u8, b3: u8) -> u32 {
    ((b0 as u32) << 24u32) | ((b1 as u32) << 16u32) | ((b2 as u32) << 8u32) | (b3 as u32)
}

/// The `u64` whose big-endian bytes are `b0 .. b7`.
pub open spec fn u64_of(b0: u8, b1: u8, b2: u8, b3: u8, b4: u8, b5: u8, b6: u8, b7: u8) -> u64 {
    ((b0 as u64) << 56u64) | ((b1 as u64) << 48u64) | ((b2 as u64) << 40u64) | ((b3 as u64)
        << 32u64) | ((b4 as u64) << 24u64) | ((b5 as u64) << 16u64) | ((b6 as u64) << 8u64) | (
    b7 as u64)
}

/// The big-endian `u16` stored in `s` at offset `i`.
pub open spec fn u16_at(s: Seq<u8>, i: int) -> u16 {
    u16_of(s[i], s[i + 1])
}

/// The big-endian `u32` stored in `s` at offset `i`.
pub open spec fn u32_at(s: Seq<u8>, i: int) -> u32 {
    u32_of(s[i], s[i + 1], s[i + 2], s[i + 3])
}

/// The big-endian `u64` stored in `s` at offset `i`.
pub open spec fn u64_at(s: Seq<u8>, i: int) -> u64 {
    u64_of(s[i], s[i + 1], s[i + 2], s[i + 3], s[i + 4], s[i + 5], s[i + 6], s[i + 7])
}

/// `b` preceded by its length as a big-endian `u32` (the length is truncated to 32 bits).
pub open spec fn with_header(b: Seq<u8>) -> Seq<u8> {
    u32_bytes(b.len() as u32) + b
}

/// `b` preceded by its length as a big-endian `u64`.
pub open spec fn with_header_u64(b: Seq<u8>) -> Seq<u8> {
    u64_bytes(b.len() as u64) + b
}

/// The byte that encodes a boolean.
pub open spec fn bool_byte(b: bool) -> u8 {
    if b {
        1u8
    } else {
        0u8
    }
}

/// Decoding the big-endian bytes of a `u16` gives it back.
pub proof fn lemma_u16_roundtrip(v: u16)
    ensures
        u16_of((v >> 8u16) as u8, v as u8) == v,
{
    assert(((((v >> 8u16) as u8) as u16) << 8u16) | ((v as u8) as u16) == v) by (bit_vector);
}

/// Decoding the big-endian bytes of a `u32` gives it back.
pub proof fn lemma_u32_roundtrip(v: u32)
    ensures
        u32_of((v >> 24u32) as u8, (v >> 16u32) as u8, (v >> 8u32) as u8, v as u8) == v,
{
    assert(((((v >> 24u32) as u8) as u32) << 24u32) | ((((v >> 16u32) as u8) as u32) << 16u32)
        | ((((v >> 8u32) as u8) as u32) << 8u32) | ((v as u8) as u32) == v) by (bit_vector);
}

/// Decoding the big-endian bytes of a `u64` gives it back.
pub proof fn lemma_u64_roundtrip(v: u64)
    ensures
        u64_of(
            (v >> 56u64) as u8,
            (v >> 48u64) as u8,
            (v >> 40u64) as u8,
            (v >> 32u64) as u8,
            (v >> 24u64) as u8,
            (v >> 16u64) as u8,
            (v >> 8u64) as u8,
            v as u8,
        ) == v,
{
    assert(((((v >> 56u64) as u8) as u64) << 56u64) | ((((v >> 48u64) as u8) as u64) << 48u64)
        | ((((v >> 40u64) as u8) as u64) << 40u64) | ((((v >> 32u64) as u8) as u64) << 32u64)
        | ((((v >> 24u64) as u8) as u64) << 24u64) | ((((v >> 16u64) as u8) as u64) << 16u64)
        | ((((v >> 8u64) as u8) as u64) << 8u64) | ((v as u8) as u64) == v) by (bit_vector);
}

/// A `u16` written at offset `i` of `s` is read back from there.
pub proof fn lemma_u16_at(s: Seq<u8>, i: int, v: u16)
    requires
        0 <= i,
        i + 2 <= s.len(),
        s.subrange(i, i + 2) == u16_bytes(v),
    ensures
        u16_at(s, i) == v,
{
    assert(s[i] == s.subrange(i, i + 2)[0]);
    assert(s[i + 1] == s.subrange(i, i + 2)[1]);
    lemma_u16_roundtrip(v);
}

/// A `u32` written at offset `i` of `s` is read back from there.
pub proof fn lemma_u32_at(s: Seq<u8>, i: int, v: u32)
    requires
        0 <= i,
        i + 4 <= s.len(),
        s.subrange(i, i + 4) == u32_bytes(v),
    ensures
        u32_at(s, i) == v,
{
    let w = s.subrange(i, i + 4);
    assert(s[i] == w[0] && s[i + 1] == w[1] && s[i + 2] == w[2] && s[i + 3] == w[3]);
    lemma_u32_roundtrip(v);
}

/// A `u64` written at offset `i` of `s` is read back from there.
pub proof fn lemma_u64_at(s: Seq<u8>, i: int, v: u64)
    requires
        0 <= i,
        i + 8 <= s.len(),
        s.subrange(i, i + 8) == u64_bytes(v),
    ensures
        u64_at(s, i) == v,
{
    let w = s.subrange(i, i + 8);
    assert(s[i] == w[0] && s[i + 1] == w[1] && s[i + 2] == w[2] && s[i + 3] == w[3]);
    assert(s[i + 4] == w[4] && s[i + 5] == w[5] && s[i + 6] == w[6] && s[i + 7] == w[7]);
    lemma_u64_roundtrip(v);
}

/// A slice of `a + r` that lies after `a` is a slice of `r`.
pub proof fn lemma_subrange_of_concat(a: Seq<u8>, r: Seq<u8>, i: int, j: int)
    requires
        0 <= i <= j <= r.len(),
    ensures
        (a + r).subrange(a.len() + i, a.len() + j) == r.subrange(i, j),
{
    assert((a + r).subrange(a.len() + i, a.len() + j) =~= r.subrange(i, j));
}

/// The byte strings of `s` one after another.
pub open spec fn concat_all(s: Seq<Seq<u8>>) -> Seq<u8>
    decreases s.len(),
{
    if s.len() == 0 {
        Seq::empty()
    } else {
        concat_all(s.drop_last()) + s.last()
    }
}

/// When every string of `s` is 20 bytes long, their concatenation is `20 * |s|`
/// bytes long and holds string `i` at offset `20 * i`.
pub proof fn lemma_concat_all_20(s: Seq<Seq<u8>>)
    requires
        forall|j: int| 0 <= j < s.len() ==> #[trigger] s[j].len() == 20,
    ensures
        concat_all(s).len() == 20 * s.len(),
        forall|i: int|
            0 <= i < s.len() ==> #[trigger] concat_all(s).subrange(20 * i, 20 * i + 20) == s[i],
    decreases s.len(),
{
    if s.len() > 0 {
        let p = s.drop_last();
        assert forall|j: int| 0 <= j < p.len() implies #[trigger] p[j].len() == 20 by {
            assert(p[j] == s[j]);
        }
        lemma_concat_all_20(p);
        let c = concat_all(s);
        assert(c == concat_all(p) + s.last());
        assert forall|i: int| 0 <= i < s.len() implies #[trigger] c.subrange(20 * i, 20 * i + 20)
            == s[i] by {
            if i < s.len() - 1 {
                assert(concat_all(p).subrange(20 * i, 20 * i + 20) == p[i]);
                assert(c.subrange(20 * i, 20 * i + 20) =~= concat_all(p).subrange(20 * i, 20 * i + 20));
            } else {
                assert(c.subrange(20 * i, 20 * i + 20) =~= s.last());
            }
        }
    }
}

// ---------------------------------------------------------------------------
// Writers
// ---------------------------------------------------------------------------

/// Appends the big-endian bytes of `v`.
pub fn put_u16(buf: &mut Vec<u8>, v: u16)
    ensures
        final(buf)@ == old(buf)@ + u16_bytes(v),
{
    buf.push((v >> 8u16) as u8);
    buf.push(v as u8);
    assert(buf@ =~= old(buf)@ + u16_bytes(v));
}

/// Appends the big-endian bytes of `v`.
pub fn put_u32(buf: &mut Vec<u8>, v: u32)
    ensures
        final(buf)@ == old(buf)@ + u32_bytes(v),
{
    buf.push((v >> 24u32) as u8);
    buf.push((v >> 16u32) as u8);
    buf.push((v >> 8u32) as u8);
    buf.push(v as u8);
    assert(buf@ =~= old(buf)@ + u32_bytes(v));
}

/// Appends the big-endian bytes of `v`.
pub fn put_u64(buf: &mut Vec<u8>, v: u64)
    ensures
        final(buf)@ == old(buf)@ + u64_bytes(v),
{
    buf.push((v >> 56u64) as u8);
    buf.push((v >> 48u64) as u8);
    buf.push((v >> 40u64) as u8);
    buf.push((v >> 32u64) as u8);
    buf.push((v >> 24u64) as u8);
    buf.push((v >> 16u64) as u8);
    buf.push((v >> 8u64) as u8);
    buf.push(v as u8);
    assert(buf@ =~= old(buf)@ + u64_bytes(v));
}

/// Appends `1` for true and `0` for false.
pub fn put_bool(buf: &mut Vec<u8>, b: bool)
    ensures
        final(buf)@ == old(buf)@.push(bool_byte(b)),
{
    if b {
        buf.push(1u8);
    } else {
        buf.push(0u8);
    }
}

/// Appends `b` as it is, with no length prefix.
pub fn put_bytes(buf: &mut Vec<u8>, b: &[u8])
    ensures
        final(buf)@ == old(buf)@ + b@,
{
    let ghost start = buf@;
    let mut i: usize = 0;
    while i < b.len()
        invariant
            0 <= i <= b@.len(),
            buf@ == start + b@.take(i as int),
        decreases b@.len() - i,
    {
        buf.push(b[i]);
        assert(b@.take(i as int + 1) =~= b@.take(i as int).push(b@[i as int]));
        i = i + 1;
    }
    assert(b@.take(b@.len() as int) =~= b@);
}

/// Appends `b` preceded by its length as a `u32` (truncated to 32 bits).
pub fn put_bytes_with_header(buf: &mut Vec<u8>, b: &[u8])
    ensures
        final(buf)@ == old(buf)@ + with_header(b@),
{
    put_u32(buf, b.len() as u32);
    put_bytes(buf, b);
    assert(buf@ =~= old(buf)@ + with_header(b@));
}

/// Appends `b` preceded by its length as a `u64`.
pub fn put_bytes_with_header_u64(buf: &mut Vec<u8>, b: &[u8])
    ensures
        final(buf)@ == old(buf)@ + with_header_u64(b@),
{
    put_u64(buf, b.len() as u64);
    put_bytes(buf, b);
    assert(buf@ =~= old(buf)@ + with_header_u64(b@));
}

// ---------------------------------------------------------------------------
// Readers
// ---------------------------------------------------------------------------

/// Reads a big-endian `u16` at `off`, if two bytes remain there.
pub fn get_u16(b: &[u8], off: usize) -> (r: Option<u16>)
    ensures
        r == (if off + 2 <= b@.len() {
            Some(u16_at(b@, off as int))
        } else {
            None
        }),
        r is Some ==> off + 2 <= usize::MAX,
{
    if off > b.len() || b.len() - off < 2 {
        return None;
    }
    Some(((b[off] as u16) << 8u16) | (b[off + 1] as u16))
}

/// Reads a big-endian `u32` at `off`, if four bytes remain there.
pub fn get_u32(b: &[u8], off: usize) -> (r: Option<u32>)
    ensures
        r == (if off + 4 <= b@.len() {
            Some(u32_at(b@, off as int))
        } else {
            None
        }),
        r is Some ==> off + 4 <= usize::MAX,
{
    if off > b.len() || b.len() - off < 4 {
        return None;
    }
    Some(
        ((b[off] as u32) << 24u32) | ((b[off + 1] as u32) << 16u32) | ((b[off + 2] as u32) << 8u32)
            | (b[off + 3] as u32),
    )
}

/// Reads a big-endian `u64` at `off`, if eight bytes remain there.
pub fn get_u64(b: &[u8], off: usize) -> (r: Option<u64>)
    ensures
        r == (if off + 8 <= b@.len() {
            Some(u64_at(b@, off as int))
        } else {
            None
        }),
        r is Some ==> off + 8 <= usize::MAX,
{
    if off > b.len() || b.len() - off < 8 {
        return None;
    }
    Some(
        ((b[off] as u64) << 56u64) | ((b[off + 1] as u64) << 48u64) | ((b[off + 2] as u64)
            << 40u64) | ((b[off + 3] as u64) << 32u64) | ((b[off + 4] as u64) << 24u64) | ((b[off
            + 5] as u64) << 16u64) | ((b[off + 6] as u64) << 8u64) | (b[off + 7] as u64),
    )
}

/// Copies the `n` bytes at `off`, if that many remain there.
pub fn get_bytes(b: &[u8], off: usize, n: usize) -> (r: Option<Vec<u8>>)
    ensures
        r matches Some(v) ==> off + n <= b@.len() && v@ == b@.subrange(off as int, off + n),
        r is Some ==> off + n <= usize::MAX,
        r is None <==> off + n > b@.len(),
{
    if off > b.len() || b.len() - off < n {
        return None;
    }
    let s = slice_subrange(b, off, off + n);
    let mut v: Vec<u8> = Vec::new();
    put_bytes(&mut v, s);
    Some(v)
}

} // verus!
