//! Dynamic fees for P-Chain transactions: a transaction's complexity in four
//! dimensions is weighed into gas, and gas times the gas price is the fee.
use vstd::prelude::*;

pub mod complexity;
pub mod defaults;
pub mod weights;

pub use complexity::{Complexity, Dimensions};

verus! {

/// The gas of `d` before any cap: `B + 1000 R + 1000 W + 4 C`.
pub open spec fn gas_of(d: Dimensions) -> int {
    d.bandwidth * weights::BANDWIDTH + d.reads * weights::READ + d.writes * weights::WRITE
        + d.compute * weights::COMPUTE
}

/// The gas of a transaction of complexity `dimensions`:
/// `B + 1000 R + 1000 W + 4 C`, saturating at `u64::MAX`.
pub fn calculate_gas(dimensions: &Dimensions) -> (gas: u64)
    ensures
        gas == complexity::saturate(gas_of(*dimensions)),
{
    let b = complexity::sat_mul(dimensions.bandwidth, weights::BANDWIDTH);
    let r = complexity::sat_mul(dimensions.reads, weights::READ);
    let w = complexity::sat_mul(dimensions.writes, weights::WRITE);
    let c = complexity::sat_mul(dimensions.compute, weights::COMPUTE);
    proof {
        let bi = dimensions.bandwidth * weights::BANDWIDTH;
        let ri = dimensions.reads * weights::READ;
        let wi = dimensions.writes * weights::WRITE;
        let ci = dimensions.compute * weights::COMPUTE;
        complexity::lemma_saturate_nested(bi, ri);
        complexity::lemma_saturate_nested(bi + ri, wi);
        complexity::lemma_saturate_nested(bi + ri + wi, ci);
    }
    b.saturating_add(r).saturating_add(w).saturating_add(c)
}

/// The fee of `gas` units at `gas_price` per unit, saturating at `u64::MAX`.
pub fn calculate_fee(gas: u64, gas_price: u64) -> (fee: u64)
    ensures
        fee == complexity::saturate(gas * gas_price),
{
    complexity::sat_mul(gas, gas_price)
}

/// Gas is additive: where adding two complexities reaches no cap, the gas of
/// the sum is the sum of their gas.
pub proof fn lemma_gas_of_sum(a: Dimensions, b: Dimensions)
    requires
        a.bandwidth + b.bandwidth <= u64::MAX,
        a.reads + b.reads <= u64::MAX,
        a.writes + b.writes <= u64::MAX,
        a.compute + b.compute <= u64::MAX,
    ensures
        gas_of(complexity::sum(a, b)) == gas_of(a) + gas_of(b),
{
}

/// More complexity never costs less gas: gas grows with each dimension.
pub proof fn lemma_gas_monotonic(a: Dimensions, b: Dimensions)
    requires
        a.bandwidth <= b.bandwidth,
        a.reads <= b.reads,
        a.writes <= b.writes,
        a.compute <= b.compute,
    ensures
        complexity::saturate(gas_of(a)) <= complexity::saturate(gas_of(b)),
{
}

} // verus!
