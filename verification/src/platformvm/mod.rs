//! P-Chain (platformvm) types: fees, L1 validators and transactions.
use vstd::prelude::*;

use crate::ids;

pub mod fees;
pub mod l1;
pub mod txs;

verus! {

/// The P-Chain's chain ID (all zeros).
pub fn chain_id() -> (id: ids::Id)
    ensures
        id@ == Seq::new(ids::LEN as nat, |i: int| 0u8),
{
    ids::Id::empty()
}

} // verus!
