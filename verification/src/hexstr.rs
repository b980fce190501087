//! Hexadecimal text: lowercase encoding, decoding of either case, and the
//! optional `0x` prefixes that key strings may carry.
use vstd::prelude::*;

use crate::errors::HexError;

verus! {

/// The ASCII code of the lowercase hexadecimal digit for `n < 16`.
pub open spec fn hex_digit(n: int) -> u8 {
    if n < 10 {
        (48 + n) as u8
    } else {
        (87 + n) as u8
    }
}

/// The lowercase hexadecimal encoding of `b` as ASCII codes: two digits per
/// byte, the high half first.
pub open spec fn hex_encoding(b: Seq<u8>) -> Seq<u8> {
    Seq::new(
        2 * b.len(),
        |i: int|
            if i % 2 == 0 {
                hex_digit((b[i / 2] / 16) as int)
            } else {
                hex_digit((b[i / 2] % 16) as int)
            },
    )
}

/// The same encoding as characters.
pub open spec fn hex_chars(b: Seq<u8>) -> Seq<char> {
    hex_encoding(b).map_values(|c: u8| c as char)
}

/// The value of an ASCII hexadecimal digit, in either case.
pub open spec fn hex_value(c: u8) -> Option<int> {
    if 48 <= c <= 57 {
        Some(c - 48)
    } else if 97 <= c <= 102 {
        Some(c - 87)
    } else if 65 <= c <= 70 {
        Some(c - 55)
    } else {
        None
    }
}

/// The bytes that the hexadecimal text `s` (ASCII codes) stands for: `None`
/// when its length is odd or one of its characters is not a hexadecimal digit.
pub open spec fn hex_decoding(s: Seq<u8>) -> Option<Seq<u8>> {
    if s.len() % 2 != 0 || exists|i: int| 0 <= i < s.len() && #[trigger] hex_value(s[i]) is None {
        None
    } else {
        Some(
            Seq::new(
                s.len() / 2,
                |j: int| (hex_value(s[2 * j])->0 * 16 + hex_value(s[2 * j + 1])->0) as u8,
            ),
        )
    }
}

/// `s` without its leading `0x` prefixes (as many as there are).
pub open spec fn strip_0x(s: Seq<u8>) -> Seq<u8>
    decreases s.len(),
{
    if s.len() >= 2 && s[0] == 48 && s[1] == 120 {
        strip_0x(s.subrange(2, s.len() as int))
    } else {
        s
    }
}

/// Calls `hex::encode`.
/// Trusted: the result is the lowercase hexadecimal encoding of `data`, two
/// digits per byte with the high half first, as `hex` documents.
#[verifier::external_body]
pub(crate) fn encode(data: &[u8]) -> (s: String)
    ensures
        s@ == hex_chars(data@),
{
    hex::encode(data)
}

/// The first position at or after `i` whose character is not a hexadecimal
/// digit, or the length of `s` when there is none.
pub open spec fn first_non_digit(s: Seq<u8>, i: int) -> int
    decreases s.len() - i,
{
    if i >= s.len() {
        s.len() as int
    } else if hex_value(s[i]) is None {
        i
    } else {
        first_non_digit(s, i + 1)
    }
}

/// The error that decoding `s` reports when it fails: an odd length, else the
/// first character that is not a hexadecimal digit.
pub open spec fn hex_error(s: Seq<u8>) -> HexError {
    if s.len() % 2 != 0 {
        HexError::OddLength
    } else {
        let i = first_non_digit(s, 0);
        HexError::InvalidCharacter { c: s[i] as char, index: i as usize }
    }
}

/// Calls `hex::decode`.
/// Trusted: it succeeds exactly on text of even length whose characters are
/// all hexadecimal digits (either case), and then gives one byte per two
/// digits, the first the high half; otherwise it reports an odd length, or
/// else the first character that is not a digit and its position, as the
/// source of `hex` shows.
#[verifier::external_body]
pub(crate) fn decode(s: &[u8]) -> (r: core::result::Result<Vec<u8>, HexError>)
    ensures
        r matches Ok(v) ==> hex_decoding(s@) == Some(v@),
        r matches Err(e) ==> hex_decoding(s@) is None && e == hex_error(s@),
{
    match hex::decode(s) {
        Ok(v) => Ok(v),
        Err(hex::FromHexError::InvalidHexCharacter { c, index }) => Err(
            HexError::InvalidCharacter { c, index },
        ),
        Err(hex::FromHexError::OddLength) => Err(HexError::OddLength),
        Err(hex::FromHexError::InvalidStringLength) => Err(HexError::InvalidStringLength),
    }
}

/// The offset at which `s` continues after its leading `0x` prefixes.
pub(crate) fn skip_0x(s: &[u8]) -> (start: usize)
    ensures
        start <= s@.len(),
        strip_0x(s@) == s@.subrange(start as int, s@.len() as int),
{
    let mut start: usize = 0;
    assert(s@.subrange(0, s@.len() as int) =~= s@);
    while s.len() - start >= 2 && s[start] == 48 && s[start + 1] == 120
        invariant
            start <= s@.len(),
            strip_0x(s@) == strip_0x(s@.subrange(start as int, s@.len() as int)),
        decreases s@.len() - start,
    {
        let ghost rest = s@.subrange(start as int, s@.len() as int);
        assert(rest.subrange(2, rest.len() as int) =~= s@.subrange(start + 2, s@.len() as int));
        start = start + 2;
    }
    let ghost rest = s@.subrange(start as int, s@.len() as int);
    assert(strip_0x(rest) == rest);
    start
}

/// Decoding the hexadecimal encoding of `b` gives `b` back.
pub proof fn lemma_hex_roundtrip(b: Seq<u8>)
    ensures
        hex_decoding(hex_encoding(b)) == Some(b),
{
    let e = hex_encoding(b);
    assert forall|i: int| 0 <= i < e.len() implies #[trigger] hex_value(e[i]) == Some(
        if i % 2 == 0 {
            b[i / 2] / 16
        } else {
            b[i / 2] % 16
        } as int,
    ) by {}
    assert(!exists|i: int| 0 <= i < e.len() && #[trigger] hex_value(e[i]) is None);
    let d = Seq::new(
        e.len() / 2,
        |j: int| (hex_value(e[2 * j])->0 * 16 + hex_value(e[2 * j + 1])->0) as u8,
    );
    assert forall|j: int| 0 <= j < b.len() implies #[trigger] d[j] == b[j] by {
        assert(hex_value(e[2 * j]) == Some((b[j] / 16) as int));
        assert(hex_value(e[2 * j + 1]) == Some((b[j] % 16) as int));
    }
    assert(d =~= b);
}

/// Hexadecimal encodings carry no `0x` prefix: their second character is a
/// digit, never `x`.
pub proof fn lemma_hex_encoding_unprefixed(b: Seq<u8>)
    ensures
        strip_0x(hex_encoding(b)) == hex_encoding(b),
{
    let e = hex_encoding(b);
    if e.len() >= 2 {
        assert(e[1] == hex_digit((b[0] % 16) as int));
    }
}

/// The hexadecimal characters are ASCII: their UTF-8 encoding is the
/// encoding as ASCII codes.
pub proof fn lemma_hex_chars_utf8(b: Seq<u8>)
    ensures
        vstd::utf8::encode_utf8(hex_chars(b)) == hex_encoding(b),
{
    let c = hex_chars(b);
    assert(vstd::utf8::is_ascii_chars(c));
    vstd::utf8::is_ascii_chars_encode_utf8(c);
    assert(vstd::utf8::encode_utf8(c) =~= hex_encoding(b));
}

/// The same with a leading `0x`.
pub proof fn lemma_prefixed_hex_utf8(b: Seq<u8>)
    ensures
        vstd::utf8::encode_utf8("0x"@ + hex_chars(b)) == seq![48u8, 120u8] + hex_encoding(b),
{
    reveal_strlit("0x");
    let c = "0x"@ + hex_chars(b);
    assert(vstd::utf8::is_ascii_chars(c));
    vstd::utf8::is_ascii_chars_encode_utf8(c);
    assert(vstd::utf8::encode_utf8(c) =~= seq![48u8, 120u8] + hex_encoding(b));
}

} // verus!
