//! Avalanche types: identifiers, binary encodings, Warp messages, L1 validator
//! records, P-Chain transaction types, fee complexity and keys.
pub mod ids;
pub mod packer;
pub mod errors;
pub mod warp;
pub mod hash;
pub mod key;
pub mod platformvm;
pub mod codec;
pub mod txs;
pub mod hexstr;
