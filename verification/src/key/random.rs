//! Random bytes from the system's generator, through `ring`.
use vstd::prelude::*;

use ring::rand::SecureRandom;

verus! {

/// Calls `ring::rand::SystemRandom::fill` for 32 bytes.
/// Trusted for nothing about the bytes: they come from the system's random
/// number generator; `None` when it fails.
#[verifier::external_body]
pub(crate) fn random_32_bytes() -> (r: Option<[u8; 32]>) {
    let mut b = [0u8; 32];
    match ring::rand::SystemRandom::new().fill(&mut b) {
        Ok(()) => Some(b),
        Err(_) => None,
    }
}

} // verus!
