//! DisableL1ValidatorTx: deactivates an L1 validator, which keeps its remaining
//! balance; unlike removal (weight 0), it can be re-enabled.
use vstd::prelude::*;

use crate::codec;
use crate::ids::Id;
use crate::key::secp256k1::txs::{Credential, Input};
use crate::txs;

verus! {

/// Deactivates an L1 validator.
#[derive(Debug, Clone, PartialEq, Eq, Default)]
pub struct Tx {
    /// Base transaction fields.
    pub base_tx: txs::Tx,
    /// The validator to disable.
    pub validation_id: Id,
    /// Authorization by the deactivation owner.
    pub disable_auth: Input,
    /// Credentials.
    pub creds: Vec<Credential>,
}

impl Tx {
    /// Creates the transaction, with no authorization indices and no credentials.
    pub fn new(base_tx: txs::Tx, validation_id: Id) -> (tx: Self)
        ensures
            tx.base_tx == base_tx,
            tx.validation_id == validation_id,
            tx.disable_auth.sig_indices@.len() == 0,
            tx.creds@.len() == 0,
    {
        Self {
            base_tx,
            validation_id,
            disable_auth: Input { sig_indices: Vec::new() },
            creds: Vec::new(),
        }
    }

    /// The transaction ID: the one that signing recorded, else all zeros.
    pub fn tx_id(&self) -> (id: Id)
        ensures
            id@ == txs::tx_id_of(self.base_tx),
    {
        self.base_tx.id()
    }

    /// The name under which the P-Chain codec registers this transaction type.
    pub fn tx_type_name() -> (name: String)
        ensures
            name@ == "platformvm.DisableL1ValidatorTx"@,
    {
        "platformvm.DisableL1ValidatorTx".to_owned()
    }

    /// The type ID that the P-Chain codec registers for `tx_type_name()`.
    pub fn type_id() -> (id: u32)
        ensures
            codec::p_type_id_of("platformvm.DisableL1ValidatorTx"@) == Some(id),
            id == 35,
    {
        let name = Self::tx_type_name();
        let found = codec::p_type_id(name.as_str());
        proof {
            codec::lemma_disable_l1_validator_tx_registered();
        }
        match found {
            Some(id) => id,
            None => 0,
        }
    }
}

} // verus!
