//! Weight multipliers of the four complexity dimensions in gas.
use vstd::prelude::*;

verus! {

/// Bandwidth weight (the base unit).
pub const BANDWIDTH: u64 = 1;

/// Read weight (1000 times bandwidth).
pub const READ: u64 = 1000;

/// Write weight (1000 times bandwidth).
pub const WRITE: u64 = 1000;

/// Compute weight (4 times bandwidth, compute being measured in microseconds).
pub const COMPUTE: u64 = 4;

} // verus!
