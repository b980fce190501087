//! SetL1ValidatorWeightTx: sets the weight of an L1 validator (0 removes it),
//! as a Warp message from the L1's manager chain asks.
use vstd::prelude::*;

use crate::codec;
use crate::ids::Id;
use crate::key::secp256k1::txs::{Credential};
use crate::txs;
use crate::warp;

verus! {

/// Updates the weight of an existing L1 validator.
#[derive(Debug, Clone, PartialEq, Eq, Default)]
pub struct Tx {
    /// Base transaction fields.
    pub base_tx: txs::Tx,
    /// Signed Warp message with an L1ValidatorWeightMessage payload.
    pub message: warp::Message,
    /// Credentials.
    pub creds: Vec<Credential>,
}

impl Tx {
    /// Creates the transaction, with no authorization indices and no credentials.
    pub fn new(base_tx: txs::Tx, message: warp::Message) -> (tx: Self)
        ensures
            tx.base_tx == base_tx,
            tx.message == message,
            tx.creds@.len() == 0,
    {
        Self {
            base_tx,
            message,
            creds: Vec::new(),
        }
    }

    /// The transaction ID: the one that signing recorded, else all zeros.
    pub fn tx_id(&self) -> (id: Id)
        ensures
            id@ == txs::tx_id_of(self.base_tx),
    {
        self.base_tx.id()
    }

    /// The name under which the P-Chain codec registers this transaction type.
    pub fn tx_type_name() -> (name: String)
        ensures
            name@ == "platformvm.SetL1ValidatorWeightTx"@,
    {
        "platformvm.SetL1ValidatorWeightTx".to_owned()
    }

    /// The type ID that the P-Chain codec registers for `tx_type_name()`.
    pub fn type_id() -> (id: u32)
        ensures
            codec::p_type_id_of("platformvm.SetL1ValidatorWeightTx"@) == Some(id),
            id == 33,
    {
        let name = Self::tx_type_name();
        let found = codec::p_type_id(name.as_str());
        proof {
            codec::lemma_set_l1_validator_weight_tx_registered();
        }
        match found {
            Some(id) => id,
            None => 0,
        }
    }
}

} // verus!
