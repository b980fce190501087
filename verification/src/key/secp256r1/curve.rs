//! The P-256 operations that the keys rely on, done by the `p256` crate.
use vstd::prelude::*;

use p256::ecdsa::signature::hazmat::{PrehashSigner, PrehashVerifier};
use p256::ecdsa::{Signature, SigningKey, VerifyingKey};
use p256::elliptic_curve::sec1::ToEncodedPoint;
use p256::{PublicKey, SecretKey};

verus! {

/// The order of the P-256 group.
pub open spec fn group_order() -> int {
    0xffffffff00000000ffffffffffffffffbce6faada7179e84f3b9cac2fc632551int
}

/// The big-endian value of `b`.
pub open spec fn be_value(b: Seq<u8>) -> int
    decreases b.len(),
{
    if b.len() == 0 {
        0
    } else {
        be_value(b.drop_last()) * 256 + b.last()
    }
}

/// Whether `b` is a secret scalar: 32 big-endian bytes of a value in
/// `1 .. group_order()`.
pub open spec fn secret_scalar_valid(b: Seq<u8>) -> bool {
    b.len() == 32 && 0 < be_value(b) < group_order()
}

/// The public key (compressed SEC1 encoding) of the secret scalar `secret`.
pub uninterp spec fn spec_p256_public_key(secret: Seq<u8>) -> Seq<u8>;

/// What decoding `b` as a SEC1 point (compressed or not) gives: the point's
/// compressed encoding, or `None` when `b` is not a point of the curve.
pub uninterp spec fn spec_p256_sec1_decode(b: Seq<u8>) -> Option<Seq<u8>>;

/// The uncompressed SEC1 encoding of the point whose compressed encoding is `c`.
pub uninterp spec fn spec_p256_uncompressed(c: Seq<u8>) -> Seq<u8>;

/// The ECDSA signature (`r || s`) of the prehashed `digest` by `secret`, with
/// the nonce of RFC 6979; `None` when signing fails.
pub uninterp spec fn spec_p256_sign_prehash(secret: Seq<u8>, digest: Seq<u8>) -> Option<Seq<u8>>;

/// Whether `sig` (`r || s`) is a valid ECDSA signature of the prehashed
/// `digest` by the public key whose compressed encoding is `public`.
pub uninterp spec fn spec_p256_verify_prehash(public: Seq<u8>, digest: Seq<u8>, sig: Seq<u8>) -> bool;

/// Calls `p256::SecretKey::from_slice` on 32 bytes.
/// Trusted: it succeeds exactly when the bytes are the big-endian encoding of a
/// value in `1 .. group_order()`, as `elliptic_curve` documents and its source shows.
#[verifier::external_body]
pub(crate) fn secret_key_accepts(raw: &[u8]) -> (ok: bool)
    requires
        raw@.len() == 32,
    ensures
        ok == secret_scalar_valid(raw@),
{
    SecretKey::from_slice(raw).is_ok()
}

/// Calls `p256::SecretKey::public_key` and compresses the point with
/// `to_encoded_point(true)`.
/// Trusted: the result is the compressed encoding of the key's public point
/// (named `spec_p256_public_key`), 33 bytes long, and decoding it gives it back.
#[verifier::external_body]
pub(crate) fn public_key_of(secret: &[u8; 32]) -> (pk: [u8; 33])
    requires
        secret_scalar_valid(secret@),
    ensures
        pk@ == spec_p256_public_key(secret@),
        spec_p256_sec1_decode(pk@) == Some(pk@),
{
    let sk = SecretKey::from_slice(secret).unwrap();
    let mut out = [0u8; 33];
    out.copy_from_slice(sk.public_key().to_encoded_point(true).as_bytes());
    out
}

/// Calls `p256::PublicKey::from_sec1_bytes` and compresses the point with
/// `to_encoded_point(true)`.
/// Trusted: the result depends on the bytes alone (named
/// `spec_p256_sec1_decode`); a point's compressed encoding is 33 bytes long and
/// decodes to itself.
#[verifier::external_body]
pub(crate) fn sec1_decode(b: &[u8]) -> (r: Option<[u8; 33]>)
    ensures
        r matches Some(c) ==> spec_p256_sec1_decode(b@) == Some(c@)
            && spec_p256_sec1_decode(c@) == Some(c@),
        r is None ==> spec_p256_sec1_decode(b@) is None,
{
    let pk = PublicKey::from_sec1_bytes(b).ok()?;
    let mut out = [0u8; 33];
    out.copy_from_slice(pk.to_encoded_point(true).as_bytes());
    Some(out)
}

/// Calls `p256::PublicKey::to_encoded_point(false)` on the decoded point.
/// Trusted: the result is the uncompressed encoding (named
/// `spec_p256_uncompressed`), 65 bytes long, and decodes to the same point.
#[verifier::external_body]
pub(crate) fn uncompressed(c: &[u8; 33]) -> (u: [u8; 65])
    requires
        spec_p256_sec1_decode(c@) == Some(c@),
    ensures
        u@ == spec_p256_uncompressed(c@),
        spec_p256_sec1_decode(u@) == Some(c@),
{
    let pk = PublicKey::from_sec1_bytes(c).unwrap();
    let mut out = [0u8; 65];
    out.copy_from_slice(pk.to_encoded_point(false).as_bytes());
    out
}

/// Calls `p256::ecdsa::SigningKey::sign_prehash` (deterministic nonce of RFC
/// 6979) and takes the signature's bytes with `Signature::to_vec`.
/// Trusted: the result depends on the secret and the digest alone (named
/// `spec_p256_sign_prehash`); a signature is 64 bytes long and verifies under
/// the secret's public key.
#[verifier::external_body]
pub(crate) fn sign_prehash(secret: &[u8; 32], digest: &[u8]) -> (r: Option<Vec<u8>>)
    requires
        secret_scalar_valid(secret@),
        digest@.len() == 32,
    ensures
        r matches Some(sig) ==> spec_p256_sign_prehash(secret@, digest@) == Some(sig@)
            && sig@.len() == 64
            && spec_p256_verify_prehash(spec_p256_public_key(secret@), digest@, sig@),
        r is None ==> spec_p256_sign_prehash(secret@, digest@) is None,
{
    let sk = SecretKey::from_slice(secret).unwrap();
    let signing_key = SigningKey::from(&sk);
    let sig: Signature = signing_key.sign_prehash(digest).ok()?;
    Some(sig.to_vec())
}

/// Calls `p256::ecdsa::VerifyingKey::verify_prehash`, after decoding the key
/// with `VerifyingKey::from_sec1_bytes` and the signature with `Signature::from_slice`.
/// Trusted: the answer depends on the three byte strings alone (named
/// `spec_p256_verify_prehash`); a signature that does not decode gives `false`.
#[verifier::external_body]
pub(crate) fn verify_prehash(public: &[u8; 33], digest: &[u8], sig: &[u8]) -> (ok: bool)
    requires
        spec_p256_sec1_decode(public@) == Some(public@),
    ensures
        ok == spec_p256_verify_prehash(public@, digest@, sig@),
{
    let key = VerifyingKey::from_sec1_bytes(public).unwrap();
    match Signature::from_slice(sig) {
        Ok(s) => key.verify_prehash(digest, &s).is_ok(),
        Err(_) => false,
    }
}

} // verus!
