//! Complexity of common operations.
use vstd::prelude::*;

verus! {

/// Microseconds per secp256k1 signature verification.
pub const SECP256K1_VERIFY_COST: u64 = 200;

/// Microseconds per BLS signature verification.
pub const BLS_VERIFY_COST: u64 = 1000;

/// Microseconds per BLS public key aggregation.
pub const BLS_AGGREGATE_COST: u64 = 50;

/// Reads per UTXO read.
pub const UTXO_READ: u64 = 1;

/// Writes per UTXO write.
pub const UTXO_WRITE: u64 = 1;

/// Reads per validator state read.
pub const VALIDATOR_READ: u64 = 1;

/// Writes per validator state write.
pub const VALIDATOR_WRITE: u64 = 1;

/// Reads per subnet state read.
pub const SUBNET_READ: u64 = 1;

/// Writes per subnet state write.
pub const SUBNET_WRITE: u64 = 1;

} // verus!
