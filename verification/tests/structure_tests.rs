//! Construction of validator records, transactions, Warp messages and fees.
use avalanche_types::ids::{self, Id};
use avalanche_types::platformvm::fees::{self, Dimensions};
use avalanche_types::platformvm::l1::{InitialL1Validator, L1Validator, PChainOwner};
use avalanche_types::platformvm::txs::{convert_subnet_to_l1, register_l1_validator};
use avalanche_types::warp::UnsignedMessage;

#[test]
fn test_l1_validator_type_creation() {
    // Verify L1Validator types can be created correctly
    let validator = L1Validator::new(
        Id::from_slice(&[1u8; 32]),
        Id::from_slice(&[2u8; 32]),
        ids::node::Id::from_slice(&[0xAA; 20]),
        vec![0u8; 48],
        1000,
    );

    assert_eq!(validator.weight, 1000);
    assert!(validator.is_active);
    println!("L1Validator created successfully: {:?}", validator.validation_id);
}

#[test]
fn test_initial_l1_validator_creation() {
    let owner = PChainOwner::single(ids::short::Id::from_slice(&[0xBB; 20]));

    let validator = InitialL1Validator::new(
        ids::node::Id::from_slice(&[0xAA; 20]),
        vec![0u8; 48],
        1000,
        owner.clone(),
        owner,
    );

    assert_eq!(validator.weight, 1000);
    println!("InitialL1Validator created successfully");
}

#[test]
fn test_convert_subnet_to_l1_tx_structure() {
    let tx = convert_subnet_to_l1::Tx::new(
        avalanche_types::txs::Tx::default(),
        Id::from_slice(&[1u8; 32]),
        Id::from_slice(&[2u8; 32]),
        vec![0x11, 0x22, 0x33],
        vec![],
    );

    assert_eq!(tx.subnet_id, Id::from_slice(&[1u8; 32]));
    assert_eq!(tx.chain_id, Id::from_slice(&[2u8; 32]));
    assert_eq!(convert_subnet_to_l1::Tx::type_id(), 31);
    println!("ConvertSubnetToL1Tx structure verified");
}

#[test]
fn test_register_l1_validator_tx_structure() {
    let warp_msg = avalanche_types::warp::Message::new(
        UnsignedMessage::new(1, Id::empty(), vec![]),
        vec![],
        vec![],
    );

    let tx = register_l1_validator::Tx::new(
        avalanche_types::txs::Tx::default(),
        5000,
        vec![0u8; 96],
        warp_msg,
    );

    assert_eq!(tx.balance, 5000);
    assert_eq!(register_l1_validator::Tx::type_id(), 32);
    println!("RegisterL1ValidatorTx structure verified");
}

#[test]
fn test_warp_message_creation() {
    let mut msg = UnsignedMessage::new(1337, Id::from_slice(&[0xAB; 32]), vec![1, 2, 3, 4]);

    let id = msg.id().unwrap();
    let bytes = msg.to_bytes().unwrap();

    assert!(!id.is_empty());
    assert!(!bytes.is_empty());
    println!("Warp UnsignedMessage ID: {:?}", id);
    println!("Warp UnsignedMessage bytes length: {}", bytes.len());
}

#[test]
fn test_fee_complexity_calculation() {
    let dims = Dimensions::new(500, 3, 2, 100);
    let gas = fees::calculate_gas(&dims);
    let fee = fees::calculate_fee(gas, 10);

    // G = 500*1 + 3*1000 + 2*1000 + 100*4 = 500 + 3000 + 2000 + 400 = 5900
    assert_eq!(gas, 5900);
    assert_eq!(fee, 59000);
    println!("Fee complexity: gas={}, fee={} nAVAX", gas, fee);
}
