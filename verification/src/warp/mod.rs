//! Avalanche Warp Messaging: signed cross-chain messages and their payloads.
pub mod message;
pub mod payload;

pub use message::{Message, UnsignedMessage};
pub use payload::{
    L1ValidatorRegistrationMessage, L1ValidatorWeightMessage, RegisterL1ValidatorMessage,
    SubnetToL1ConversionMessage,
};
