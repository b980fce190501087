//! secp256r1 (P-256) private keys.
use vstd::prelude::*;
use vstd::slice::slice_subrange;
use vstd::string::{StringExecFns, StringSliceAdditionalSpecFns};

use crate::errors::{Error, Result};
use crate::hash;
use crate::hexstr;
use crate::key::secp256r1::curve;
use crate::key::secp256r1::public_key::{self, Key as PublicKey};

verus! {

/// The size (in bytes) of a secp256r1 secret key.
pub const LEN: usize = 32;

/// A P-256 private key, held as the 32 big-endian bytes of its secret scalar.
#[derive(Debug, PartialEq, Eq)]
pub struct Key {
    secret: [u8; LEN],
}

impl Clone for Key {
    /// A copy of the key.
    fn clone(&self) -> (k: Self)
        ensures
            k@ == self@,
    {
        proof {
            use_type_invariant(self);
        }
        Key { secret: self.secret }
    }
}

impl View for Key {
    type V = Seq<u8>;

    /// The 32 big-endian bytes of the secret scalar.
    closed spec fn view(&self) -> Seq<u8> {
        self.secret@
    }
}

/// What `Key::from_bytes` gives for `raw`: the secret's bytes, or the error.
pub open spec fn from_bytes_outcome(raw: Seq<u8>) -> core::result::Result<Seq<u8>, Error> {
    if raw.len() != LEN {
        Err(Error::SecretKeyLength { actual: raw.len() as usize })
    } else if !curve::secret_scalar_valid(raw) {
        Err(Error::InvalidSecretKey)
    } else {
        Ok(raw)
    }
}

/// What `Key::from_hex` gives for the text whose bytes are `s`.
pub open spec fn from_hex_outcome(s: Seq<u8>) -> core::result::Result<Seq<u8>, Error> {
    match hexstr::hex_decoding(hexstr::strip_0x(s)) {
        None => Err(Error::InvalidHex(hexstr::hex_error(hexstr::strip_0x(s)))),
        Some(b) => from_bytes_outcome(b),
    }
}

/// What `Key::sign_digest` gives for the secret `secret` and `digest`.
pub open spec fn sign_digest_outcome(secret: Seq<u8>, digest: Seq<u8>) -> core::result::Result<
    Seq<u8>,
    Error,
> {
    if digest.len() != hash::SHA256_OUTPUT_LEN {
        Err(Error::DigestLength { actual: digest.len() as usize })
    } else {
        match curve::spec_p256_sign_prehash(secret, digest) {
            Some(sig) => Ok(sig),
            None => Err(Error::SigningFailed),
        }
    }
}

impl Key {
    /// The type's invariant: the field is a valid secret scalar.
    #[verifier::type_invariant]
    spec fn inv(self) -> bool {
        curve::secret_scalar_valid(self.secret@)
    }

    /// Generates a key from 32 random bytes.
    pub fn generate() -> (r: Result<Self>)
        ensures
            r matches Ok(k) ==> curve::secret_scalar_valid(k@),
            r matches Err(e) ==> e == Error::RandomFailed || e == Error::InvalidSecretKey,
    {
        match crate::key::random::random_32_bytes() {
            None => Err(Error::RandomFailed),
            Some(b) => Self::from_bytes(&b),
        }
    }

    /// Loads a key from the 32 big-endian bytes of its secret scalar, which
    /// must lie in `1 .. group order`.
    pub fn from_bytes(raw: &[u8]) -> (r: Result<Self>)
        ensures
            r matches Ok(k) ==> from_bytes_outcome(raw@) == Ok::<Seq<u8>, Error>(k@),
            r matches Err(e) ==> from_bytes_outcome(raw@) == Err::<Seq<u8>, Error>(e),
    {
        if raw.len() != LEN {
            return Err(Error::SecretKeyLength { actual: raw.len() });
        }
        if !curve::secret_key_accepts(raw) {
            return Err(Error::InvalidSecretKey);
        }
        let mut secret = [0u8; LEN];
        let mut i: usize = 0;
        while i < LEN
            invariant
                raw@.len() == LEN,
                0 <= i <= LEN,
                secret@.len() == LEN,
                forall|j: int| 0 <= j < i ==> secret@[j] == raw@[j],
            decreases LEN - i,
        {
            secret[i] = raw[i];
            i = i + 1;
        }
        assert(secret@ =~= raw@);
        Ok(Key { secret })
    }

    /// The 32 big-endian bytes of the secret scalar.
    pub fn to_bytes(&self) -> (b: [u8; LEN])
        ensures
            b@ == self@,
            curve::secret_scalar_valid(b@),
    {
        proof {
            use_type_invariant(self);
        }
        self.secret
    }

    /// `0x` followed by the lowercase hexadecimal encoding of the secret.
    pub fn to_hex(&self) -> (s: String)
        ensures
            s@ == "0x"@ + hexstr::hex_chars(self@),
    {
        let enc = hexstr::encode(&self.secret);
        "0x".to_owned().concat(enc.as_str())
    }

    /// Loads a key from hexadecimal text (either case, with or without
    /// leading `0x` prefixes) of its 32 secret bytes.
    pub fn from_hex(s: &str) -> (r: Result<Self>)
        ensures
            r matches Ok(k) ==> from_hex_outcome(s.spec_bytes()) == Ok::<Seq<u8>, Error>(k@),
            r matches Err(e) ==> from_hex_outcome(s.spec_bytes()) == Err::<Seq<u8>, Error>(e),
    {
        let bytes = s.as_bytes();
        let start = hexstr::skip_0x(bytes);
        let digits = slice_subrange(bytes, start, bytes.len());
        match hexstr::decode(digits) {
            Err(h) => Err(Error::InvalidHex(h)),
            Ok(b) => Self::from_bytes(b.as_slice()),
        }
    }

    /// The public key of this private key.
    pub fn to_public_key(&self) -> (pk: PublicKey)
        ensures
            pk@ == curve::spec_p256_public_key(self@),
            public_key::is_point(pk@),
    {
        proof {
            use_type_invariant(self);
        }
        PublicKey::from_point(curve::public_key_of(&self.secret))
    }

    /// Signs a 32-byte digest: the 64-byte ECDSA signature `r || s`, with the
    /// deterministic nonce of RFC 6979. A signature verifies under this key's
    /// public key.
    pub fn sign_digest(&self, digest: &[u8]) -> (r: Result<Vec<u8>>)
        ensures
            r matches Ok(sig) ==> sign_digest_outcome(self@, digest@) == Ok::<Seq<u8>, Error>(sig@)
                && sig@.len() == 64
                && curve::spec_p256_verify_prehash(curve::spec_p256_public_key(self@), digest@, sig@),
            r matches Err(e) ==> sign_digest_outcome(self@, digest@) == Err::<Seq<u8>, Error>(e),
    {
        proof {
            use_type_invariant(self);
        }
        if digest.len() != hash::SHA256_OUTPUT_LEN {
            return Err(Error::DigestLength { actual: digest.len() });
        }
        match curve::sign_prehash(&self.secret, digest) {
            Some(sig) => Ok(sig),
            None => Err(Error::SigningFailed),
        }
    }

    /// Signs the SHA-256 digest of `msg`.
    pub fn sign(&self, msg: &[u8]) -> (r: Result<Vec<u8>>)
        ensures
            r matches Ok(sig) ==> sign_digest_outcome(self@, hash::spec_sha256(msg@)) == Ok::<
                Seq<u8>,
                Error,
            >(sig@) && curve::spec_p256_verify_prehash(
                curve::spec_p256_public_key(self@),
                hash::spec_sha256(msg@),
                sig@,
            ),
            r matches Err(e) ==> sign_digest_outcome(self@, hash::spec_sha256(msg@)) == Err::<
                Seq<u8>,
                Error,
            >(e),
    {
        let digest = hash::sha256(msg);
        self.sign_digest(digest.as_slice())
    }
}

/// The bytes of a key load it back.
pub proof fn lemma_bytes_roundtrip(secret: Seq<u8>)
    requires
        curve::secret_scalar_valid(secret),
    ensures
        from_bytes_outcome(secret) == Ok::<Seq<u8>, Error>(secret),
{
}

/// A key's hexadecimal text (`0x` and the digits) loads it back.
pub proof fn lemma_hex_roundtrip(secret: Seq<u8>)
    requires
        curve::secret_scalar_valid(secret),
    ensures
        from_hex_outcome(vstd::utf8::encode_utf8("0x"@ + hexstr::hex_chars(secret))) == Ok::<
            Seq<u8>,
            Error,
        >(secret),
{
    let e = hexstr::hex_encoding(secret);
    hexstr::lemma_prefixed_hex_utf8(secret);
    let b = seq![48u8, 120u8] + e;
    assert(b.subrange(2, b.len() as int) =~= e);
    hexstr::lemma_hex_encoding_unprefixed(secret);
    hexstr::lemma_hex_roundtrip(secret);
}

} // verus!
