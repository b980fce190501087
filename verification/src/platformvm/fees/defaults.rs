//! Default fee parameters at Etna activation.
use vstd::prelude::*;

verus! {

/// Target gas per second.
pub const TARGET_GAS_PER_SECOND: u64 = 50_000;

/// Minimum gas price in nAVAX.
pub const MIN_GAS_PRICE: u64 = 1;

/// Price update constant (the price doubles about every 30 s at full capacity).
pub const PRICE_UPDATE_CONSTANT: u64 = 2_164_043;

/// Maximum gas capacity per block.
pub const MAX_GAS_CAPACITY: u64 = 1_000_000;

/// Gas capacity added per second.
pub const GAS_CAPACITY_PER_SECOND: u64 = 100_000;

} // verus!
