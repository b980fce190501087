//! P-Chain transactions that manage L1 validators.
pub mod convert_subnet_to_l1;
pub mod disable_l1_validator;
pub mod increase_l1_validator_balance;
pub mod register_l1_validator;
pub mod set_l1_validator_weight;
