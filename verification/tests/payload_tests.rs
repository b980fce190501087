//! Warp payloads.
use avalanche_types::ids::Id;
use avalanche_types::warp::payload::{L1ValidatorRegistrationMessage, L1ValidatorWeightMessage};

#[test]
fn test_l1_validator_weight_roundtrip() {
    let msg = L1ValidatorWeightMessage::new(Id::from_slice(&[1u8; 32]), 42, 1000);

    let bytes = msg.to_bytes().unwrap();
    let parsed = L1ValidatorWeightMessage::from_bytes(&bytes).unwrap();

    assert_eq!(msg.validation_id, parsed.validation_id);
    assert_eq!(msg.nonce, parsed.nonce);
    assert_eq!(msg.weight, parsed.weight);
}

#[test]
fn test_l1_validator_registration_roundtrip() {
    let msg = L1ValidatorRegistrationMessage::new(Id::from_slice(&[2u8; 32]), true);

    let bytes = msg.to_bytes().unwrap();
    let parsed = L1ValidatorRegistrationMessage::from_bytes(&bytes).unwrap();

    assert_eq!(msg.validation_id, parsed.validation_id);
    assert_eq!(msg.registered, parsed.registered);
}
