//! L1 validator records and P-Chain owners.
use avalanche_types::ids::{self, Id};
use avalanche_types::platformvm::l1::validator::{L1Validator, PChainOwner};

#[test]
fn test_pchain_owner_roundtrip() {
    let addr1 = ids::short::Id::from_slice(&[1u8; 20]);
    let addr2 = ids::short::Id::from_slice(&[2u8; 20]);

    let owner = PChainOwner::new(2, vec![addr1, addr2]);
    let bytes = owner.to_bytes().unwrap();
    let parsed = PChainOwner::from_bytes(&bytes).unwrap();

    assert_eq!(owner.threshold, parsed.threshold);
    assert_eq!(owner.addresses.len(), parsed.addresses.len());
}

#[test]
fn test_l1_validator_states() {
    let mut validator = L1Validator::new(
        Id::from_slice(&[1u8; 32]),
        Id::from_slice(&[2u8; 32]),
        ids::node::Id::from_slice(&[3u8; 20]),
        vec![0u8; 48],
        1000,
    );

    assert!(!validator.is_deactivated());
    assert!(!validator.is_removed());

    validator.is_active = false;
    assert!(validator.is_deactivated());

    validator.weight = 0;
    assert!(validator.is_removed());
}
