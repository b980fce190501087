//! Hash functions.
use vstd::prelude::*;

verus! {

/// The size (in bytes) of a SHA-256 digest.
pub const SHA256_OUTPUT_LEN: usize = 32;

/// The SHA-256 digest of `data`, as computed by `ring`.
pub uninterp spec fn spec_sha256(data: Seq<u8>) -> Seq<u8>;

/// Calls `ring::digest::digest` with `ring::digest::SHA256`.
/// Trusted: the result is the digest of `data` (named `spec_sha256`) and, as
/// `ring` documents for SHA-256, it is 32 bytes long.
#[verifier::external_body]
pub fn sha256(data: &[u8]) -> (digest: Vec<u8>)
    ensures
        digest@ == spec_sha256(data@),
        digest@.len() == SHA256_OUTPUT_LEN,
{
    ring::digest::digest(&ring::digest::SHA256, data).as_ref().to_vec()
}

} // verus!
