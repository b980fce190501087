//! secp256r1 (P-256) public keys.
use vstd::prelude::*;
use vstd::slice::slice_subrange;
use vstd::string::StringSliceAdditionalSpecFns;

use crate::errors::{Error, Result};
use crate::hash;
use crate::hexstr;
use crate::key::secp256r1::curve;

verus! {

/// The size (in bytes) of a compressed public key.
pub const LEN: usize = 33;

/// The size (in bytes) of an uncompressed public key.
pub const UNCOMPRESSED_LEN: usize = 65;

/// A P-256 public key, held as the compressed SEC1 encoding of its point.
#[derive(Debug, Clone, Copy, PartialEq, Eq)]
pub struct Key {
    compressed: [u8; LEN],
}

impl View for Key {
    type V = Seq<u8>;

    /// The compressed SEC1 encoding of the point.
    closed spec fn view(&self) -> Seq<u8> {
        self.compressed@
    }
}

/// Whether `c` is the compressed encoding of a point of the curve.
pub open spec fn is_point(c: Seq<u8>) -> bool {
    curve::spec_p256_sec1_decode(c) == Some(c)
}

/// What `Key::from_sec1_bytes` gives for `b`: the key's compressed encoding,
/// or `InvalidPublicKey`.
pub open spec fn from_sec1_outcome(b: Seq<u8>) -> core::result::Result<Seq<u8>, Error> {
    match curve::spec_p256_sec1_decode(b) {
        Some(c) => Ok(c),
        None => Err(Error::InvalidPublicKey),
    }
}

/// What `Key::from_hex` gives for the text whose bytes are `s`.
pub open spec fn from_hex_outcome(s: Seq<u8>) -> core::result::Result<Seq<u8>, Error> {
    match hexstr::hex_decoding(hexstr::strip_0x(s)) {
        None => Err(Error::InvalidHex(hexstr::hex_error(hexstr::strip_0x(s)))),
        Some(b) => from_sec1_outcome(b),
    }
}

impl Key {
    /// The type's invariant: the field is the compressed encoding of a point.
    #[verifier::type_invariant]
    spec fn inv(self) -> bool {
        is_point(self.compressed@)
    }

    /// A key from a point's compressed encoding.
    pub(crate) fn from_point(compressed: [u8; LEN]) -> (k: Self)
        requires
            is_point(compressed@),
        ensures
            k@ == compressed@,
    {
        Key { compressed }
    }

    /// Decodes a key from its SEC1 encoding, compressed (33 bytes) or not (65 bytes).
    pub fn from_sec1_bytes(b: &[u8]) -> (r: Result<Self>)
        ensures
            r matches Ok(k) ==> from_sec1_outcome(b@) == Ok::<Seq<u8>, Error>(k@) && is_point(k@),
            r matches Err(e) ==> from_sec1_outcome(b@) == Err::<Seq<u8>, Error>(e),
    {
        match curve::sec1_decode(b) {
            Some(c) => Ok(Key { compressed: c }),
            None => Err(Error::InvalidPublicKey),
        }
    }

    /// Decodes a key from its 33-byte compressed SEC1 encoding.
    pub fn from_compressed_bytes(b: &[u8]) -> (r: Result<Self>)
        ensures
            b@.len() != LEN ==> r == Err::<Self, Error>(Error::InvalidLength { required: LEN, actual: b@.len() as usize }),
            b@.len() == LEN ==> (r matches Ok(k) ==> from_sec1_outcome(b@) == Ok::<Seq<u8>, Error>(k@)),
            b@.len() == LEN ==> (r matches Err(e) ==> from_sec1_outcome(b@) == Err::<Seq<u8>, Error>(e)),
    {
        if b.len() != LEN {
            return Err(Error::InvalidLength { required: LEN, actual: b.len() });
        }
        Self::from_sec1_bytes(b)
    }

    /// Whether `sig` (64 bytes, `r || s`) is a valid signature of the prehashed
    /// `digest` by this key; a signature that does not decode is not valid.
    pub fn verify_digest(&self, digest: &[u8], sig: &[u8]) -> (r: Result<bool>)
        ensures
            r == Ok::<bool, Error>(curve::spec_p256_verify_prehash(self@, digest@, sig@)),
    {
        proof {
            use_type_invariant(self);
        }
        Ok(curve::verify_prehash(&self.compressed, digest, sig))
    }

    /// Whether `sig` is a valid signature of the SHA-256 digest of `msg` by this key.
    pub fn verify(&self, msg: &[u8], sig: &[u8]) -> (r: Result<bool>)
        ensures
            r == Ok::<bool, Error>(
                curve::spec_p256_verify_prehash(self@, hash::spec_sha256(msg@), sig@),
            ),
    {
        let digest = hash::sha256(msg);
        self.verify_digest(digest.as_slice(), sig)
    }

    /// The compressed SEC1 encoding (33 bytes); it decodes to this key.
    pub fn to_compressed_bytes(&self) -> (b: [u8; LEN])
        ensures
            b@ == self@,
            from_sec1_outcome(b@) == Ok::<Seq<u8>, Error>(self@),
    {
        proof {
            use_type_invariant(self);
        }
        self.compressed
    }

    /// The uncompressed SEC1 encoding (65 bytes); it decodes to this key.
    pub fn to_uncompressed_bytes(&self) -> (b: [u8; UNCOMPRESSED_LEN])
        ensures
            b@ == curve::spec_p256_uncompressed(self@),
            from_sec1_outcome(b@) == Ok::<Seq<u8>, Error>(self@),
    {
        proof {
            use_type_invariant(self);
        }
        curve::uncompressed(&self.compressed)
    }

    /// The lowercase hexadecimal encoding of the compressed key.
    pub fn to_hex(&self) -> (s: String)
        ensures
            s@ == hexstr::hex_chars(self@),
    {
        hexstr::encode(&self.compressed)
    }

    /// Decodes a key from hexadecimal text (either case, with or without
    /// leading `0x` prefixes) of its SEC1 encoding.
    pub fn from_hex(s: &str) -> (r: Result<Self>)
        ensures
            r matches Ok(k) ==> from_hex_outcome(s.spec_bytes()) == Ok::<Seq<u8>, Error>(k@),
            r matches Err(e) ==> from_hex_outcome(s.spec_bytes()) == Err::<Seq<u8>, Error>(e),
    {
        let bytes = s.as_bytes();
        let start = hexstr::skip_0x(bytes);
        let digits = slice_subrange(bytes, start, bytes.len());
        match hexstr::decode(digits) {
            Err(h) => Err(Error::InvalidHex(h)),
            Ok(b) => Self::from_sec1_bytes(b.as_slice()),
        }
    }
}

/// A key's hexadecimal text decodes to the key.
pub proof fn lemma_hex_roundtrip(c: Seq<u8>)
    requires
        is_point(c),
    ensures
        from_hex_outcome(vstd::utf8::encode_utf8(hexstr::hex_chars(c))) == Ok::<Seq<u8>, Error>(c),
{
    hexstr::lemma_hex_chars_utf8(c);
    hexstr::lemma_hex_encoding_unprefixed(c);
    hexstr::lemma_hex_roundtrip(c);
}

} // verus!
