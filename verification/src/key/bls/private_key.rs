//! BLS secret keys: generation, public keys, and signatures.
use vstd::prelude::*;

use crate::errors::{Error, Result};
use crate::key::bls::public_key::{self, Key as PublicKey};
use crate::key::bls::signature::{self, Sig};

verus! {

/// The size (in bytes) of a serialized secret key.
pub const LEN: usize = 32;

/// The order of the BLS12-381 groups.
pub open spec fn group_order() -> int {
    0x73eda753299d7d483339d80809a1d80553bda402fffe5bfeffffffff00000001int
}

/// The big-endian value of `b`.
pub open spec fn be_value(b: Seq<u8>) -> int
    decreases b.len(),
{
    if b.len() == 0 {
        0
    } else {
        be_value(b.drop_last()) * 256 + b.last()
    }
}

/// Whether `b` is a serialized secret key: 32 big-endian bytes of a value in
/// `1 .. group_order()`.
pub open spec fn secret_valid(b: Seq<u8>) -> bool {
    b.len() == LEN && 0 < be_value(b) < group_order()
}

/// The secret key that `blst::min_pk::SecretKey::key_gen` derives from `ikm`
/// with no key information, serialized.
pub uninterp spec fn spec_bls_key_gen(ikm: Seq<u8>) -> Seq<u8>;

/// The compressed public key of the serialized secret key `secret`.
pub uninterp spec fn spec_bls_public_key(secret: Seq<u8>) -> Seq<u8>;

/// The compressed signature of `msg` by `secret` with the domain tag `dst`.
pub uninterp spec fn spec_bls_sign(secret: Seq<u8>, msg: Seq<u8>, dst: Seq<u8>) -> Seq<u8>;

/// Calls `blst::min_pk::SecretKey::key_gen` with no key information and
/// serializes the key with `to_bytes`.
/// Trusted: with 32 bytes of key material it succeeds (it fails only below 32
/// bytes), and the key, which depends on the material alone (named
/// `spec_bls_key_gen`), is a nonzero scalar below the group order.
#[verifier::external_body]
fn key_gen(ikm: &[u8; 32]) -> (secret: [u8; LEN])
    ensures
        secret@ == spec_bls_key_gen(ikm@),
        secret_valid(secret@),
{
    blst::min_pk::SecretKey::key_gen(ikm, &[]).unwrap().to_bytes()
}

/// Calls `blst::min_pk::SecretKey::sk_to_pk` and compresses the key.
/// Trusted: the result depends on the secret alone (named `spec_bls_public_key`)
/// and, the secret being nonzero, is a key that `key_validate` accepts.
#[verifier::external_body]
fn public_of(secret: &[u8; LEN]) -> (pk: [u8; public_key::LEN])
    requires
        secret_valid(secret@),
    ensures
        pk@ == spec_bls_public_key(secret@),
        public_key::spec_bls_key_validate(pk@),
{
    blst::min_pk::SecretKey::from_bytes(secret).unwrap().sk_to_pk().compress()
}

/// Calls `blst::min_pk::SecretKey::sign` (no augmentation) and compresses the
/// signature.
/// Trusted: the result depends on the secret, the message and the tag alone
/// (named `spec_bls_sign`); it decodes, and it verifies under the secret's
/// public key for the same message and tag.
#[verifier::external_body]
fn sign_with(secret: &[u8; LEN], msg: &[u8], dst: &[u8]) -> (sig: [u8; signature::LEN])
    requires
        secret_valid(secret@),
    ensures
        sig@ == spec_bls_sign(secret@, msg@, dst@),
        signature::spec_bls_signature_parses(sig@),
        public_key::spec_bls_verify(spec_bls_public_key(secret@), msg@, sig@, dst@),
{
    blst::min_pk::SecretKey::from_bytes(secret).unwrap().sign(msg, dst, &[]).compress()
}

/// A BLS secret key, held as its 32 serialized bytes.
#[derive(Debug, PartialEq, Eq)]
pub struct Key {
    secret: [u8; LEN],
}

impl View for Key {
    type V = Seq<u8>;

    closed spec fn view(&self) -> Seq<u8> {
        self.secret@
    }
}

impl Key {
    /// The type's invariant: the field is a serialized secret key.
    #[verifier::type_invariant]
    spec fn inv(self) -> bool {
        secret_valid(self.secret@)
    }

    /// Derives the key from 32 bytes of key material (no key information).
    pub fn from_ikm(ikm: &[u8; 32]) -> (k: Self)
        ensures
            k@ == spec_bls_key_gen(ikm@),
            secret_valid(k@),
    {
        Key { secret: key_gen(ikm) }
    }

    /// Generates a key from 32 random bytes of key material.
    pub fn generate() -> (r: Result<Self>)
        ensures
            r matches Ok(k) ==> secret_valid(k@) && exists|ikm: Seq<u8>|
                ikm.len() == 32 && k@ == spec_bls_key_gen(ikm),
            r matches Err(e) ==> e == Error::RandomFailed,
    {
        match crate::key::random::random_32_bytes() {
            None => Err(Error::RandomFailed),
            Some(ikm) => {
                let k = Self::from_ikm(&ikm);
                assert(ikm@.len() == 32 && k@ == spec_bls_key_gen(ikm@));
                Ok(k)
            },
        }
    }

    /// The key's 32 serialized bytes.
    pub fn to_bytes(&self) -> (b: [u8; LEN])
        ensures
            b@ == self@,
            secret_valid(b@),
    {
        proof {
            use_type_invariant(self);
        }
        self.secret
    }

    /// The public key.
    pub fn to_public_key(&self) -> (pk: PublicKey)
        ensures
            pk@ == spec_bls_public_key(self@),
            public_key::spec_bls_key_validate(pk@),
    {
        proof {
            use_type_invariant(self);
        }
        PublicKey::from_validated(public_of(&self.secret))
    }

    /// Signs `msg` with the signature domain tag; the signature verifies
    /// under the public key.
    pub fn sign(&self, msg: &[u8]) -> (sig: Sig)
        ensures
            sig@ == spec_bls_sign(self@, msg@, public_key::signature_dst()),
            public_key::spec_bls_verify(spec_bls_public_key(self@), msg@, sig@, public_key::signature_dst()),
    {
        proof {
            use_type_invariant(self);
        }
        Sig::from_parsed(sign_with(&self.secret, msg, public_key::CIPHER_SUITE_SIGNATURE.as_bytes()))
    }

    /// Signs `msg` with the proof-of-possession domain tag.
    pub fn sign_proof_of_possession(&self, msg: &[u8]) -> (sig: Sig)
        ensures
            sig@ == spec_bls_sign(self@, msg@, public_key::proof_of_possession_dst()),
            public_key::spec_bls_verify(
                spec_bls_public_key(self@),
                msg@,
                sig@,
                public_key::proof_of_possession_dst(),
            ),
    {
        proof {
            use_type_invariant(self);
        }
        Sig::from_parsed(
            sign_with(&self.secret, msg, public_key::CIPHER_SUITE_PROOF_OF_POSSESSION.as_bytes()),
        )
    }
}

} // verus!
