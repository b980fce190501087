//! secp256k1 transaction authorization types.
pub mod txs;
