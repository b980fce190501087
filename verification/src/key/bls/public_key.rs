//! BLS public keys.
use vstd::prelude::*;

use crate::errors::{Error, Result};
use crate::key::bls::signature::Sig;
use vstd::string::StringSliceAdditionalSpecFns;

verus! {

/// The size (in bytes) of a compressed BLS public key.
pub const LEN: usize = 48;

/// The domain separation tag of signatures (proof-of-possession scheme).
pub const CIPHER_SUITE_SIGNATURE: &'static str = "BLS_SIG_BLS12381G2_XMD:SHA-256_SSWU_RO_POP_";

/// The domain separation tag of proofs of possession.
pub const CIPHER_SUITE_PROOF_OF_POSSESSION: &'static str = "BLS_POP_BLS12381G2_XMD:SHA-256_SSWU_RO_POP_";

/// Whether `blst::min_pk::PublicKey::key_validate` accepts the bytes.
pub uninterp spec fn spec_bls_key_validate(b: Seq<u8>) -> bool;

/// The compressed aggregate that `blst::min_pk::AggregatePublicKey::aggregate`
/// computes from the keys, or `None` when it (or decoding a key) fails.
pub uninterp spec fn spec_bls_aggregate(keys: Seq<Seq<u8>>) -> Option<Seq<u8>>;

/// Whether `blst::min_pk::Signature::verify` reports success for the signature
/// over `msg` with the domain tag `dst` and the public key.
pub uninterp spec fn spec_bls_verify(key: Seq<u8>, msg: Seq<u8>, sig: Seq<u8>, dst: Seq<u8>) -> bool;

/// Calls `blst::min_pk::PublicKey::key_validate`.
/// Trusted: the answer depends on the bytes alone (named `spec_bls_key_validate`).
#[verifier::external_body]
fn key_validate(b: &[u8]) -> (ok: bool)
    ensures
        ok == spec_bls_key_validate(b@),
{
    blst::min_pk::PublicKey::key_validate(b).is_ok()
}

/// Calls `blst::min_pk::AggregatePublicKey::aggregate` (without re-validating the
/// keys), after decoding each key with `PublicKey::from_bytes`, and compresses the sum.
/// Trusted: the result depends on the keys' bytes alone (named `spec_bls_aggregate`)
/// and is a 48-byte compressed key; the sum of one key that validates is that
/// key, whose compressed encoding is the one it was decoded from.
#[verifier::external_body]
fn aggregate_keys(keys: &Vec<Key>) -> (r: Option<[u8; LEN]>)
    ensures
        r matches Some(v) ==> spec_bls_aggregate(keys@.map_values(|k: Key| k@)) == Some(v@),
        r is None ==> spec_bls_aggregate(keys@.map_values(|k: Key| k@)) is None,
        r is None ==> !(keys@.len() == 1 && spec_bls_key_validate(keys@[0]@)),
        r matches Some(v) ==> (keys@.len() == 1 && spec_bls_key_validate(keys@[0]@) ==> v@
            == keys@[0]@),
{
    let mut points = Vec::new();
    for k in keys.iter() {
        points.push(blst::min_pk::PublicKey::from_bytes(&k.bytes).ok()?);
    }
    let refs: Vec<&blst::min_pk::PublicKey> = points.iter().collect();
    let agg = blst::min_pk::AggregatePublicKey::aggregate(&refs, false).ok()?;
    Some(agg.to_public_key().compress())
}

/// Calls `blst::min_pk::Signature::verify` (with the signature's subgroup check,
/// no augmentation, no key re-validation), after decoding the key and the signature.
/// Trusted: the answer depends on the four byte strings alone (named `spec_bls_verify`);
/// bytes that do not decode give `false`.
#[verifier::external_body]
fn verify_signature(key: &[u8], msg: &[u8], sig: &[u8], dst: &[u8]) -> (ok: bool)
    ensures
        ok == spec_bls_verify(key@, msg@, sig@, dst@),
{
    match (blst::min_pk::PublicKey::from_bytes(key), blst::min_pk::Signature::from_bytes(sig)) {
        (Ok(pk), Ok(s)) => s.verify(true, msg, dst, &[], &pk, false) == blst::BLST_ERROR::BLST_SUCCESS,
        _ => false,
    }
}

/// A BLS public key, held as its 48-byte compressed encoding.
#[derive(Debug, Clone, Copy, PartialEq, Eq)]
pub struct Key {
    bytes: [u8; LEN],
}

impl View for Key {
    type V = Seq<u8>;

    closed spec fn view(&self) -> Seq<u8> {
        self.bytes@
    }
}

impl Default for Key {
    /// The key of 48 zero bytes (which no valid key has).
    fn default() -> (k: Self)
        ensures
            k@ == Seq::new(LEN as nat, |i: int| 0u8),
    {
        let k = Key { bytes: [0u8; LEN] };
        assert(k@ =~= Seq::new(LEN as nat, |i: int| 0u8));
        k
    }
}

/// What `Key::from_bytes` gives for `b`: the key's bytes, or `InvalidKey`.
pub open spec fn from_bytes_outcome(b: Seq<u8>) -> core::result::Result<Seq<u8>, Error> {
    if b.len() == LEN && spec_bls_key_validate(b) {
        Ok(b)
    } else {
        Err(Error::InvalidKey)
    }
}

/// The domain separation tag's bytes.
pub open spec fn signature_dst() -> Seq<u8> {
    CIPHER_SUITE_SIGNATURE.spec_bytes()
}

/// The proof-of-possession domain separation tag's bytes.
pub open spec fn proof_of_possession_dst() -> Seq<u8> {
    CIPHER_SUITE_PROOF_OF_POSSESSION.spec_bytes()
}

impl Key {
    /// A key from bytes that validate.
    pub(crate) fn from_validated(bytes: [u8; LEN]) -> (k: Self)
        requires
            spec_bls_key_validate(bytes@),
        ensures
            k@ == bytes@,
    {
        Key { bytes }
    }

    /// Decodes and validates a 48-byte compressed public key (not the point at
    /// infinity, in the group).
    pub fn from_bytes(b: &[u8]) -> (r: Result<Self>)
        ensures
            r matches Ok(k) ==> from_bytes_outcome(b@) == Ok::<Seq<u8>, Error>(k@),
            r matches Err(e) ==> from_bytes_outcome(b@) == Err::<Seq<u8>, Error>(e),
    {
        if b.len() != LEN || !key_validate(b) {
            return Err(Error::InvalidKey);
        }
        let mut bytes = [0u8; LEN];
        let mut i: usize = 0;
        while i < LEN
            invariant
                b@.len() == LEN,
                0 <= i <= LEN,
                bytes@.len() == LEN,
                forall|j: int| 0 <= j < i ==> bytes@[j] == b@[j],
            decreases LEN - i,
        {
            bytes[i] = b[i];
            i = i + 1;
        }
        assert(bytes@ =~= b@);
        Ok(Key { bytes })
    }

    /// The key's bytes.
    pub fn to_bytes(&self) -> (v: Vec<u8>)
        ensures
            v@ == self@,
    {
        let mut v: Vec<u8> = Vec::new();
        crate::packer::put_bytes(&mut v, &self.bytes);
        proof {
            assert(v@ =~= self@);
        }
        v
    }

    /// The key's 48-byte compressed encoding.
    pub fn to_compressed_bytes(&self) -> (b: [u8; LEN])
        ensures
            b@ == self@,
    {
        self.bytes
    }

    /// Verifies a proof-of-possession-scheme signature of `msg` under this key.
    pub fn verify(&self, msg: &[u8], sig: &Sig) -> (ok: bool)
        ensures
            ok == spec_bls_verify(self@, msg@, sig@, signature_dst()),
    {
        let s = sig.to_bytes();
        verify_signature(&self.bytes, msg, s.as_slice(), CIPHER_SUITE_SIGNATURE.as_bytes())
    }
}

/// Aggregates public keys into one.
pub fn aggregate(keys: &Vec<Key>) -> (r: Result<Key>)
    ensures
        r matches Ok(k) ==> spec_bls_aggregate(keys@.map_values(|k: Key| k@)) == Some(k@),
        r is Err ==> r == Err::<Key, Error>(Error::AggregationFailed) && spec_bls_aggregate(
            keys@.map_values(|k: Key| k@),
        ) is None,
        keys@.len() == 1 && spec_bls_key_validate(keys@[0]@) ==> (r matches Ok(k) && k@
            == keys@[0]@),
{
    match aggregate_keys(keys) {
        Some(bytes) => Ok(Key { bytes }),
        None => Err(Error::AggregationFailed),
    }
}

} // verus!
