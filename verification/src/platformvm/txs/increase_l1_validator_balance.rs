//! IncreaseL1ValidatorBalanceTx: adds to the balance that pays an L1
//! validator's continuous fee; anyone may send it, no Warp message is needed.
use vstd::prelude::*;

use crate::codec;
use crate::ids::Id;
use crate::key::secp256k1::txs::{Credential};
use crate::txs;

verus! {

/// Increases the balance of an L1 validator.
#[derive(Debug, Clone, PartialEq, Eq, Default)]
pub struct Tx {
    /// Base transaction fields.
    pub base_tx: txs::Tx,
    /// The validator whose balance grows.
    pub validation_id: Id,
    /// Amount (in nAVAX) to add.
    pub balance: u64,
    /// Credentials.
    pub creds: Vec<Credential>,
}

impl Tx {
    /// Creates the transaction, with no authorization indices and no credentials.
    pub fn new(base_tx: txs::Tx, validation_id: Id, balance: u64) -> (tx: Self)
        ensures
            tx.base_tx == base_tx,
            tx.validation_id == validation_id,
            tx.balance == balance,
            tx.creds@.len() == 0,
    {
        Self {
            base_tx,
            validation_id,
            balance,
            creds: Vec::new(),
        }
    }

    /// The transaction ID: the one that signing recorded, else all zeros.
    pub fn tx_id(&self) -> (id: Id)
        ensures
            id@ == txs::tx_id_of(self.base_tx),
    {
        self.base_tx.id()
    }

    /// The name under which the P-Chain codec registers this transaction type.
    pub fn tx_type_name() -> (name: String)
        ensures
            name@ == "platformvm.IncreaseL1ValidatorBalanceTx"@,
    {
        "platformvm.IncreaseL1ValidatorBalanceTx".to_owned()
    }

    /// The type ID that the P-Chain codec registers for `tx_type_name()`.
    pub fn type_id() -> (id: u32)
        ensures
            codec::p_type_id_of("platformvm.IncreaseL1ValidatorBalanceTx"@) == Some(id),
            id == 34,
    {
        let name = Self::tx_type_name();
        let found = codec::p_type_id(name.as_str());
        proof {
            codec::lemma_increase_l1_validator_balance_tx_registered();
        }
        match found {
            Some(id) => id,
            None => 0,
        }
    }
}

} // verus!
