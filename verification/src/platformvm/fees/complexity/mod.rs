//! Transaction complexity in four dimensions: bandwidth (bytes), reads and
//! writes of state, and compute (microseconds, mostly signature verification).
use vstd::prelude::*;

pub mod constants;

verus! {

/// `x` capped at `u64::MAX` (for `x >= 0`).
pub open spec fn saturate(x: int) -> u64 {
    if x > u64::MAX {
        u64::MAX
    } else {
        x as u64
    }
}

/// Capping an inner sum first changes nothing.
pub proof fn lemma_saturate_nested(x: int, y: int)
    requires
        x >= 0,
        y >= 0,
    ensures
        saturate(saturate(x) + y) == saturate(x + y),
        saturate(x + saturate(y)) == saturate(x + y),
{
}

/// `a * b`, or `u64::MAX` where the product does not fit.
pub(crate) fn sat_mul(a: u64, b: u64) -> (r: u64)
    ensures
        r == saturate(a * b),
{
    match a.checked_mul(b) {
        Some(p) => p,
        None => u64::MAX,
    }
}

/// The complexity of a transaction.
#[derive(Debug, Clone, Copy, PartialEq, Eq, Structural)]
pub struct Dimensions {
    /// Transaction size in bytes.
    pub bandwidth: u64,
    /// Number of state reads.
    pub reads: u64,
    /// Number of state writes.
    pub writes: u64,
    /// Compute time in microseconds.
    pub compute: u64,
}

/// The dimensions with each given amount capped at `u64::MAX`.
pub open spec fn capped(bandwidth: int, reads: int, writes: int, compute: int) -> Dimensions {
    Dimensions {
        bandwidth: saturate(bandwidth),
        reads: saturate(reads),
        writes: saturate(writes),
        compute: saturate(compute),
    }
}

/// The dimension-wise sum of `a` and `b`, each capped at `u64::MAX`.
pub open spec fn sum(a: Dimensions, b: Dimensions) -> Dimensions {
    capped(
        a.bandwidth + b.bandwidth,
        a.reads + b.reads,
        a.writes + b.writes,
        a.compute + b.compute,
    )
}

/// The all-zero dimensions.
pub open spec fn zero() -> Dimensions {
    Dimensions { bandwidth: 0, reads: 0, writes: 0, compute: 0 }
}

impl Default for Dimensions {
    /// The all-zero dimensions.
    fn default() -> (d: Self)
        ensures
            d == zero(),
    {
        Dimensions { bandwidth: 0, reads: 0, writes: 0, compute: 0 }
    }
}

impl Dimensions {
    /// Creates dimensions.
    pub fn new(bandwidth: u64, reads: u64, writes: u64, compute: u64) -> (d: Self)
        ensures
            d == (Dimensions { bandwidth, reads, writes, compute }),
    {
        Self { bandwidth, reads, writes, compute }
    }

    /// The dimension-wise sum, saturating at `u64::MAX`.
    pub fn add(&self, other: &Dimensions) -> (d: Self)
        ensures
            d == sum(*self, *other),
    {
        Self {
            bandwidth: self.bandwidth.saturating_add(other.bandwidth),
            reads: self.reads.saturating_add(other.reads),
            writes: self.writes.saturating_add(other.writes),
            compute: self.compute.saturating_add(other.compute),
        }
    }
}

/// Adding dimensions does not depend on their order.
pub proof fn lemma_add_commutative(a: Dimensions, b: Dimensions)
    ensures
        sum(a, b) == sum(b, a),
{
}

/// Adding dimensions does not depend on how the additions are grouped.
pub proof fn lemma_add_associative(a: Dimensions, b: Dimensions, c: Dimensions)
    ensures
        sum(sum(a, b), c) == sum(a, sum(b, c)),
{
    lemma_saturate_nested(a.bandwidth + b.bandwidth, c.bandwidth as int);
    lemma_saturate_nested(a.bandwidth as int, b.bandwidth + c.bandwidth);
    lemma_saturate_nested(a.reads + b.reads, c.reads as int);
    lemma_saturate_nested(a.reads as int, b.reads + c.reads);
    lemma_saturate_nested(a.writes + b.writes, c.writes as int);
    lemma_saturate_nested(a.writes as int, b.writes + c.writes);
    lemma_saturate_nested(a.compute + b.compute, c.compute as int);
    lemma_saturate_nested(a.compute as int, b.compute + c.compute);
}

/// Adding zero dimensions changes nothing.
pub proof fn lemma_add_zero(a: Dimensions)
    ensures
        sum(a, zero()) == a,
        sum(zero(), a) == a,
{
}

/// Computes a transaction's complexity from its bytes.
pub trait Complexity {
    /// The complexity of this transaction, whose encoding is `tx_bytes`.
    fn complexity(&self, tx_bytes: &[u8]) -> Dimensions;
}

/// What most transactions share: the size, one read per input, one write per
/// output, one secp256k1 verification per signature.
pub fn base_tx_complexity(
    tx_bytes: &[u8],
    num_inputs: usize,
    num_outputs: usize,
    num_signatures: usize,
) -> (d: Dimensions)
    ensures
        d == capped(
            tx_bytes@.len() as int,
            num_inputs as int,
            num_outputs as int,
            num_signatures * constants::SECP256K1_VERIFY_COST,
        ),
{
    Dimensions {
        bandwidth: tx_bytes.len() as u64,
        reads: sat_mul(num_inputs as u64, constants::UTXO_READ),
        writes: sat_mul(num_outputs as u64, constants::UTXO_WRITE),
        compute: sat_mul(num_signatures as u64, constants::SECP256K1_VERIFY_COST),
    }
}

/// ConvertSubnetToL1Tx: the base complexity, one more read (the subnet), one
/// more write (the L1) and one write per initial validator.
pub fn convert_subnet_to_l1_complexity(
    tx_bytes: &[u8],
    num_inputs: usize,
    num_outputs: usize,
    num_signatures: usize,
    num_validators: usize,
) -> (d: Dimensions)
    ensures
        d == capped(
            tx_bytes@.len() as int,
            num_inputs + 1,
            num_outputs + 1 + num_validators,
            num_signatures * constants::SECP256K1_VERIFY_COST,
        ),
{
    let base = base_tx_complexity(tx_bytes, num_inputs, num_outputs, num_signatures);
    let additional = Dimensions {
        bandwidth: 0,
        reads: constants::SUBNET_READ,
        writes: constants::SUBNET_WRITE.saturating_add(
            sat_mul(num_validators as u64, constants::VALIDATOR_WRITE),
        ),
        compute: 0,
    };
    proof {
        lemma_saturate_nested(num_outputs as int, 1 + num_validators);
    }
    base.add(&additional)
}

/// RegisterL1ValidatorTx: the base complexity, two more reads (the L1 and the
/// existing validators), one more write (the validator) and one BLS
/// verification (the proof of possession).
pub fn register_l1_validator_complexity(
    tx_bytes: &[u8],
    num_inputs: usize,
    num_outputs: usize,
    num_signatures: usize,
) -> (d: Dimensions)
    ensures
        d == capped(
            tx_bytes@.len() as int,
            num_inputs + 2,
            num_outputs + 1,
            num_signatures * constants::SECP256K1_VERIFY_COST + constants::BLS_VERIFY_COST,
        ),
{
    let base = base_tx_complexity(tx_bytes, num_inputs, num_outputs, num_signatures);
    let additional = Dimensions {
        bandwidth: 0,
        reads: constants::SUBNET_READ.saturating_add(constants::VALIDATOR_READ),
        writes: constants::VALIDATOR_WRITE,
        compute: constants::BLS_VERIFY_COST,
    };
    proof {
        lemma_saturate_nested(num_signatures * constants::SECP256K1_VERIFY_COST, 1000);
    }
    base.add(&additional)
}

/// SetL1ValidatorWeightTx: the base complexity, two more reads, one more
/// write, one BLS verification (the Warp message) and one aggregation per
/// Warp signer.
pub fn set_l1_validator_weight_complexity(
    tx_bytes: &[u8],
    num_inputs: usize,
    num_outputs: usize,
    num_signatures: usize,
    num_warp_signers: usize,
) -> (d: Dimensions)
    ensures
        d == capped(
            tx_bytes@.len() as int,
            num_inputs + 2,
            num_outputs + 1,
            num_signatures * constants::SECP256K1_VERIFY_COST + constants::BLS_VERIFY_COST
                + num_warp_signers * constants::BLS_AGGREGATE_COST,
        ),
{
    let base = base_tx_complexity(tx_bytes, num_inputs, num_outputs, num_signatures);
    let additional = Dimensions {
        bandwidth: 0,
        reads: constants::SUBNET_READ.saturating_add(constants::VALIDATOR_READ),
        writes: constants::VALIDATOR_WRITE,
        compute: constants::BLS_VERIFY_COST.saturating_add(
            sat_mul(num_warp_signers as u64, constants::BLS_AGGREGATE_COST),
        ),
    };
    proof {
        let s = num_signatures * constants::SECP256K1_VERIFY_COST;
        let w = num_warp_signers * constants::BLS_AGGREGATE_COST;
        lemma_saturate_nested(1000, w);
        lemma_saturate_nested(s, 1000 + w);
    }
    base.add(&additional)
}

/// IncreaseL1ValidatorBalanceTx: the base complexity, one more read and one
/// more write (the validator's balance).
pub fn increase_l1_validator_balance_complexity(
    tx_bytes: &[u8],
    num_inputs: usize,
    num_outputs: usize,
    num_signatures: usize,
) -> (d: Dimensions)
    ensures
        d == capped(
            tx_bytes@.len() as int,
            num_inputs + 1,
            num_outputs + 1,
            num_signatures * constants::SECP256K1_VERIFY_COST,
        ),
{
    let base = base_tx_complexity(tx_bytes, num_inputs, num_outputs, num_signatures);
    let additional = Dimensions {
        bandwidth: 0,
        reads: constants::VALIDATOR_READ,
        writes: constants::VALIDATOR_WRITE,
        compute: 0,
    };
    base.add(&additional)
}

/// DisableL1ValidatorTx: the base complexity, two more reads (the validator
/// and its deactivation owner) and one more write (the validator's state).
pub fn disable_l1_validator_complexity(
    tx_bytes: &[u8],
    num_inputs: usize,
    num_outputs: usize,
    num_signatures: usize,
) -> (d: Dimensions)
    ensures
        d == capped(
            tx_bytes@.len() as int,
            num_inputs + 2,
            num_outputs + 1,
            num_signatures * constants::SECP256K1_VERIFY_COST,
        ),
{
    let base = base_tx_complexity(tx_bytes, num_inputs, num_outputs, num_signatures);
    let additional = Dimensions {
        bandwidth: 0,
        reads: constants::VALIDATOR_READ.saturating_add(1),
        writes: constants::VALIDATOR_WRITE,
        compute: 0,
    };
    base.add(&additional)
}

/// AddValidatorTx: the base complexity, one more read and one more write.
pub fn add_validator_complexity(
    tx_bytes: &[u8],
    num_inputs: usize,
    num_outputs: usize,
    num_signatures: usize,
) -> (d: Dimensions)
    ensures
        d == capped(
            tx_bytes@.len() as int,
            num_inputs + 1,
            num_outputs + 1,
            num_signatures * constants::SECP256K1_VERIFY_COST,
        ),
{
    let base = base_tx_complexity(tx_bytes, num_inputs, num_outputs, num_signatures);
    let additional = Dimensions {
        bandwidth: 0,
        reads: constants::VALIDATOR_READ,
        writes: constants::VALIDATOR_WRITE,
        compute: 0,
    };
    base.add(&additional)
}

/// AddDelegatorTx: the base complexity, one more read and one more write.
pub fn add_delegator_complexity(
    tx_bytes: &[u8],
    num_inputs: usize,
    num_outputs: usize,
    num_signatures: usize,
) -> (d: Dimensions)
    ensures
        d == capped(
            tx_bytes@.len() as int,
            num_inputs + 1,
            num_outputs + 1,
            num_signatures * constants::SECP256K1_VERIFY_COST,
        ),
{
    let base = base_tx_complexity(tx_bytes, num_inputs, num_outputs, num_signatures);
    let additional = Dimensions {
        bandwidth: 0,
        reads: constants::VALIDATOR_READ,
        writes: constants::VALIDATOR_WRITE,
        compute: 0,
    };
    base.add(&additional)
}

/// CreateSubnetTx: the base complexity and one more write (the subnet).
pub fn create_subnet_complexity(
    tx_bytes: &[u8],
    num_inputs: usize,
    num_outputs: usize,
    num_signatures: usize,
) -> (d: Dimensions)
    ensures
        d == capped(
            tx_bytes@.len() as int,
            num_inputs as int,
            num_outputs + 1,
            num_signatures * constants::SECP256K1_VERIFY_COST,
        ),
{
    let base = base_tx_complexity(tx_bytes, num_inputs, num_outputs, num_signatures);
    let additional = Dimensions {
        bandwidth: 0,
        reads: 0,
        writes: constants::SUBNET_WRITE,
        compute: 0,
    };
    base.add(&additional)
}

/// ImportTx and ExportTx: the base complexity and one read per imported input.
pub fn atomic_tx_complexity(
    tx_bytes: &[u8],
    num_inputs: usize,
    num_outputs: usize,
    num_signatures: usize,
    num_imported_inputs: usize,
) -> (d: Dimensions)
    ensures
        d == capped(
            tx_bytes@.len() as int,
            num_inputs + num_imported_inputs,
            num_outputs as int,
            num_signatures * constants::SECP256K1_VERIFY_COST,
        ),
{
    let base = base_tx_complexity(tx_bytes, num_inputs, num_outputs, num_signatures);
    let additional = Dimensions {
        bandwidth: 0,
        reads: sat_mul(num_imported_inputs as u64, constants::UTXO_READ),
        writes: 0,
        compute: 0,
    };
    base.add(&additional)
}

} // verus!
