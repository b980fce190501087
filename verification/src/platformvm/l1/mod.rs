//! L1 validator management types.
pub mod validator;

pub use validator::{ConversionData, InitialL1Validator, L1Validator, PChainOwner};
