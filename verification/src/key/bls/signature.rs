//! BLS signatures.
use vstd::prelude::*;

use crate::errors::{Error, Result};

verus! {

/// The size (in bytes) of a compressed BLS signature.
pub const LEN: usize = 96;

/// Whether `blst::min_pk::Signature::from_bytes` accepts the bytes.
pub uninterp spec fn spec_bls_signature_parses(b: Seq<u8>) -> bool;

/// Calls `blst::min_pk::Signature::from_bytes`.
/// Trusted: the answer (whether the bytes decode to a signature point) depends
/// on the bytes alone and is named `spec_bls_signature_parses`.
#[verifier::external_body]
fn signature_parses(b: &[u8]) -> (ok: bool)
    ensures
        ok == spec_bls_signature_parses(b@),
{
    blst::min_pk::Signature::from_bytes(b).is_ok()
}

/// A BLS signature, held as its 96-byte compressed encoding.
#[derive(Debug, Clone, Copy, PartialEq, Eq)]
pub struct Sig {
    bytes: [u8; LEN],
}

impl View for Sig {
    type V = Seq<u8>;

    closed spec fn view(&self) -> Seq<u8> {
        self.bytes@
    }
}

/// What `Sig::from_bytes` gives for `b`: the signature's bytes, or
/// `InvalidSignature`.
pub open spec fn from_bytes_outcome(b: Seq<u8>) -> core::result::Result<Seq<u8>, Error> {
    if b.len() == LEN && spec_bls_signature_parses(b) {
        Ok(b)
    } else {
        Err(Error::InvalidSignature)
    }
}

impl Sig {
    /// A signature from bytes that decode.
    pub(crate) fn from_parsed(bytes: [u8; LEN]) -> (s: Self)
        ensures
            s@ == bytes@,
    {
        Sig { bytes }
    }

    /// Decodes a 96-byte compressed signature; fails when `blst` rejects it.
    pub fn from_bytes(b: &[u8]) -> (r: Result<Self>)
        ensures
            r matches Ok(s) ==> from_bytes_outcome(b@) == Ok::<Seq<u8>, Error>(s@),
            r matches Err(e) ==> from_bytes_outcome(b@) == Err::<Seq<u8>, Error>(e),
    {
        if b.len() != LEN || !signature_parses(b) {
            return Err(Error::InvalidSignature);
        }
        let mut bytes = [0u8; LEN];
        let mut i: usize = 0;
        while i < LEN
            invariant
                b@.len() == LEN,
                0 <= i <= LEN,
                bytes@.len() == LEN,
                forall|j: int| 0 <= j < i ==> bytes@[j] == b@[j],
            decreases LEN - i,
        {
            bytes[i] = b[i];
            i = i + 1;
        }
        assert(bytes@ =~= b@);
        Ok(Sig { bytes })
    }

    /// The signature's bytes.
    pub fn to_bytes(&self) -> (v: Vec<u8>)
        ensures
            v@ == self@,
    {
        let mut v: Vec<u8> = Vec::new();
        crate::packer::put_bytes(&mut v, &self.bytes);
        proof {
            assert(v@ =~= self@);
        }
        v
    }

    /// The signature's 96-byte compressed encoding.
    pub fn to_compressed_bytes(&self) -> (b: [u8; LEN])
        ensures
            b@ == self@,
    {
        self.bytes
    }
}

} // verus!
