//! RegisterL1ValidatorTx: registers a validator on an L1, as a Warp message
//! from the L1's manager chain asks, with a balance for its continuous fee.
use vstd::prelude::*;

use crate::codec;
use crate::ids::Id;
use crate::key::secp256k1::txs::{Credential};
use crate::txs;
use crate::warp;

verus! {

/// Registers a new validator on an L1.
#[derive(Debug, Clone, PartialEq, Eq, Default)]
pub struct Tx {
    /// Base transaction fields.
    pub base_tx: txs::Tx,
    /// Initial balance of the validator (for its continuous fee).
    pub balance: u64,
    /// BLS proof of possession of the validator's key.
    pub proof_of_possession: Vec<u8>,
    /// Signed Warp message with a RegisterL1ValidatorMessage payload.
    pub message: warp::Message,
    /// Credentials.
    pub creds: Vec<Credential>,
}

impl Tx {
    /// Creates the transaction, with no authorization indices and no credentials.
    pub fn new(base_tx: txs::Tx, balance: u64, proof_of_possession: Vec<u8>, message: warp::Message) -> (tx: Self)
        ensures
            tx.base_tx == base_tx,
            tx.balance == balance,
            tx.proof_of_possession@ == proof_of_possession@,
            tx.message == message,
            tx.creds@.len() == 0,
    {
        Self {
            base_tx,
            balance,
            proof_of_possession,
            message,
            creds: Vec::new(),
        }
    }

    /// The transaction ID: the one that signing recorded, else all zeros.
    pub fn tx_id(&self) -> (id: Id)
        ensures
            id@ == txs::tx_id_of(self.base_tx),
    {
        self.base_tx.id()
    }

    /// The name under which the P-Chain codec registers this transaction type.
    pub fn tx_type_name() -> (name: String)
        ensures
            name@ == "platformvm.RegisterL1ValidatorTx"@,
    {
        "platformvm.RegisterL1ValidatorTx".to_owned()
    }

    /// The type ID that the P-Chain codec registers for `tx_type_name()`.
    pub fn type_id() -> (id: u32)
        ensures
            codec::p_type_id_of("platformvm.RegisterL1ValidatorTx"@) == Some(id),
            id == 32,
    {
        let name = Self::tx_type_name();
        let found = codec::p_type_id(name.as_str());
        proof {
            codec::lemma_register_l1_validator_tx_registered();
        }
        match found {
            Some(id) => id,
            None => 0,
        }
    }
}

} // verus!
