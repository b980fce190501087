//! Known answers, error cases and properties of the library on concrete values.
use avalanche_types::codec;
use avalanche_types::errors::{Error, HexError};
use avalanche_types::hash;
use avalanche_types::ids::{self, Id};
use avalanche_types::key::bls;
use avalanche_types::key::secp256r1::{PrivateKey, PublicKey};
use avalanche_types::platformvm::fees::complexity::{
    self, add_delegator_complexity, atomic_tx_complexity, create_subnet_complexity,
};
use avalanche_types::platformvm::fees::{calculate_fee, calculate_gas, Dimensions};
use avalanche_types::platformvm::l1::{ConversionData, InitialL1Validator, PChainOwner};
use avalanche_types::platformvm::txs::convert_subnet_to_l1;
use avalanche_types::txs;
use avalanche_types::warp::message::{Message, UnsignedMessage};
use avalanche_types::warp::payload::{
    L1ValidatorRegistrationMessage, L1ValidatorWeightMessage, RegisterL1ValidatorMessage,
    SubnetToL1ConversionMessage,
};

fn secret_one() -> [u8; 32] {
    let mut b = [0u8; 32];
    b[31] = 1;
    b
}

const GENERATOR_COMPRESSED: &str =
    "036b17d1f2e12c4247f8bce6e563a440f277037d812deb33a0f4a13945d898c296";

const P256_ORDER: &str = "ffffffff00000000ffffffffffffffffbce6faada7179e84f3b9cac2fc632551";

// ---------------------------------------------------------------------------
// Fees
// ---------------------------------------------------------------------------

#[test]
fn dimensions_add_is_commutative_and_associative() {
    let a = Dimensions::new(u64::MAX - 5, 7, 0, 40);
    let b = Dimensions::new(10, 3, 9, u64::MAX);
    let c = Dimensions::new(1, 2, 3, 4);
    assert_eq!(a.add(&b), b.add(&a));
    assert_eq!(a.add(&b).add(&c), a.add(&b.add(&c)));
    assert_eq!(a.add(&Dimensions::default()), a);
    assert_eq!(a.add(&b), Dimensions::new(u64::MAX, 10, 9, u64::MAX));
}

#[test]
fn gas_of_a_sum_is_the_sum_of_gas() {
    let a = Dimensions::new(100, 2, 1, 50);
    let b = Dimensions::new(7, 0, 4, 3);
    assert_eq!(calculate_gas(&a.add(&b)), calculate_gas(&a) + calculate_gas(&b));
    assert_eq!(calculate_gas(&b), 7 + 4000 + 12);
}

#[test]
fn gas_grows_with_each_dimension() {
    let a = Dimensions::new(1, 1, 1, 1);
    let b = Dimensions::new(1, 2, 1, 1);
    assert!(calculate_gas(&a) <= calculate_gas(&b));
    assert_eq!(calculate_gas(&a), 2005);
    assert_eq!(calculate_gas(&Dimensions::new(0, 0, 0, u64::MAX / 4 + 1)), u64::MAX);
}

#[test]
fn fee_is_gas_times_price_saturating() {
    assert_eq!(calculate_fee(4050, 25), 101_250);
    assert_eq!(calculate_fee(u64::MAX / 2 + 1, 2), u64::MAX);
    assert_eq!(calculate_fee(0, u64::MAX), 0);
}

#[test]
fn remaining_complexities() {
    let tx_bytes = vec![0u8; 10];
    assert_eq!(add_delegator_complexity(&tx_bytes, 3, 4, 5), Dimensions::new(10, 4, 5, 1000));
    assert_eq!(create_subnet_complexity(&tx_bytes, 3, 4, 5), Dimensions::new(10, 3, 5, 1000));
    assert_eq!(atomic_tx_complexity(&tx_bytes, 3, 4, 5, 6), Dimensions::new(10, 9, 4, 1000));
    assert_eq!(
        complexity::convert_subnet_to_l1_complexity(&tx_bytes, 0, 0, usize::MAX, 0).compute,
        u64::MAX
    );
}

// ---------------------------------------------------------------------------
// Codec registries
// ---------------------------------------------------------------------------

#[test]
fn codec_registry_lookups() {
    assert_eq!(codec::p_type_id("platformvm.ProposalBlock"), Some(0));
    assert_eq!(codec::p_type_id("secp256k1fx.Credential"), Some(9));
    assert_eq!(codec::p_type_id("platformvm.BaseTx"), Some(30));
    assert_eq!(codec::p_type_id("platformvm.UnknownTx"), None);
    assert_eq!(codec::p_type_id(""), None);
    assert_eq!(codec::warp_payload_type_id("warp.Unknown"), None);
}

#[test]
fn warp_registry_matches_payload_type_ids() {
    assert_eq!(
        codec::warp_payload_type_id("warp.SubnetToL1ConversionMessage"),
        Some(SubnetToL1ConversionMessage::type_id())
    );
    assert_eq!(
        codec::warp_payload_type_id("warp.RegisterL1ValidatorMessage"),
        Some(RegisterL1ValidatorMessage::type_id())
    );
    assert_eq!(
        codec::warp_payload_type_id("warp.L1ValidatorRegistrationMessage"),
        Some(L1ValidatorRegistrationMessage::type_id())
    );
    assert_eq!(
        codec::warp_payload_type_id("warp.L1ValidatorWeightMessage"),
        Some(L1ValidatorWeightMessage::type_id())
    );
}

// ---------------------------------------------------------------------------
// Transactions
// ---------------------------------------------------------------------------

#[test]
fn tx_id_is_the_recorded_one() {
    let mut tx = convert_subnet_to_l1::Tx::default();
    assert_eq!(tx.tx_id(), Id::empty());
    tx.base_tx.metadata = Some(txs::Metadata {
        id: Id::from_slice(&[7u8; 32]),
        tx_bytes_with_no_signature: vec![1],
        tx_bytes_with_signatures: vec![2],
    });
    assert_eq!(tx.tx_id(), Id::from_slice(&[7u8; 32]));
}

#[test]
fn conversion_id_is_the_digest_of_the_conversion_data() {
    let validators = vec![InitialL1Validator::new(
        ids::node::Id::from_slice(&[0xAA; 20]),
        vec![1u8; 48],
        5,
        PChainOwner::single(ids::short::Id::from_slice(&[0xBB; 20])),
        PChainOwner::default(),
    )];
    let tx = convert_subnet_to_l1::Tx::new(
        txs::Tx::default(),
        Id::from_slice(&[1u8; 32]),
        Id::from_slice(&[2u8; 32]),
        vec![0x11, 0x22],
        validators.clone(),
    );
    let data = ConversionData {
        subnet_id: Id::from_slice(&[1u8; 32]),
        manager_chain_id: Id::from_slice(&[2u8; 32]),
        manager_address: vec![0x11, 0x22],
        validators,
    };
    let bytes = data.to_bytes().unwrap();
    let digest = hash::sha256(&bytes);
    assert_eq!(digest.len(), 32);
    assert_ne!(digest, bytes[..32].to_vec());
    assert_eq!(tx.conversion_id().unwrap(), Id::from_slice(&digest));
    assert_eq!(data.conversion_id().unwrap(), Id::from_slice(&digest));
}

#[test]
fn conversion_data_encoding() {
    let data = ConversionData {
        subnet_id: Id::from_slice(&[1u8; 32]),
        manager_chain_id: Id::from_slice(&[2u8; 32]),
        manager_address: vec![0xAB],
        validators: vec![],
    };
    let bytes = data.to_bytes().unwrap();
    let mut expected = vec![1u8; 32];
    expected.extend_from_slice(&[2u8; 32]);
    expected.extend_from_slice(&[0, 0, 0, 1, 0xAB]);
    expected.extend_from_slice(&[0, 0, 0, 0]);
    assert_eq!(bytes, expected);
}

#[test]
fn conversion_data_too_large() {
    let data = ConversionData {
        subnet_id: Id::empty(),
        manager_chain_id: Id::empty(),
        manager_address: vec![0u8; 1024 - 71],
        validators: vec![],
    };
    assert_eq!(data.to_bytes(), Err(Error::InsufficientSpace { max_size: 1024 }));
    let data = ConversionData { manager_address: vec![0u8; 1024 - 72], ..data };
    assert_eq!(data.to_bytes().unwrap().len(), 1024);
}

#[test]
fn initial_validator_encoding_and_limit() {
    let v = InitialL1Validator::new(
        ids::node::Id::from_slice(&[9u8; 20]),
        vec![3u8; 2],
        0x0102,
        PChainOwner::default(),
        PChainOwner::single(ids::short::Id::from_slice(&[4u8; 20])),
    );
    let mut expected = vec![9u8; 20];
    expected.extend_from_slice(&[0, 0, 0, 2, 3, 3]);
    expected.extend_from_slice(&[0, 0, 0, 0, 0, 0, 1, 2]);
    expected.extend_from_slice(&[0, 0, 0, 8, 0, 0, 0, 0, 0, 0, 0, 0]);
    expected.extend_from_slice(&[0, 0, 0, 28, 0, 0, 0, 1, 0, 0, 0, 1]);
    expected.extend_from_slice(&[4u8; 20]);
    assert_eq!(v.to_bytes().unwrap(), expected);

    let big = InitialL1Validator::new(
        ids::node::Id::from_slice(&[9u8; 20]),
        vec![0u8; 201],
        1,
        PChainOwner::default(),
        PChainOwner::default(),
    );
    assert_eq!(big.to_bytes(), Err(Error::InsufficientSpace { max_size: 256 }));
}

#[test]
fn owner_decoding_errors() {
    assert_eq!(PChainOwner::from_bytes(&[0, 0, 0, 1]), Err(Error::UnexpectedEnd));
    assert_eq!(PChainOwner::from_bytes(&[0, 0, 0, 1, 0, 0, 0, 1, 5]), Err(Error::UnexpectedEnd));
    let owner = PChainOwner::from_bytes(&[0, 0, 0, 2, 0, 0, 0, 0, 0xFF]).unwrap();
    assert_eq!(owner.threshold, 2);
    assert!(owner.addresses.is_empty());
}

// ---------------------------------------------------------------------------
// Warp messages and payloads
// ---------------------------------------------------------------------------

#[test]
fn unsigned_message_encoding_and_id() {
    let mut m = UnsignedMessage::new(0x01020304, Id::from_slice(&[5u8; 32]), vec![0xAA, 0xBB]);
    let bytes = m.to_bytes().unwrap();
    let mut expected = vec![0, 0, 1, 2, 3, 4];
    expected.extend_from_slice(&[5u8; 32]);
    expected.extend_from_slice(&[0, 0, 0, 2, 0xAA, 0xBB]);
    assert_eq!(bytes, expected);
    let digest = ring::digest::digest(&ring::digest::SHA256, &expected);
    assert_eq!(m.id().unwrap(), Id::from_slice(digest.as_ref()));
}

#[test]
fn unsigned_message_decoding_errors() {
    assert_eq!(UnsignedMessage::from_bytes(&[0]), Err(Error::UnexpectedEnd));
    assert_eq!(UnsignedMessage::from_bytes(&[0, 7]), Err(Error::UnsupportedCodecVersion(7)));
    let mut b = vec![0u8; 42];
    b[41] = 1;
    assert_eq!(UnsignedMessage::from_bytes(&b), Err(Error::UnexpectedEnd));
}

#[test]
fn message_decoding_takes_at_most_96_signature_bytes() {
    let mut m = Message::new(UnsignedMessage::new(1, Id::empty(), vec![]), vec![1], vec![7u8; 100]);
    let bytes = m.to_bytes().unwrap();
    let parsed = Message::from_bytes(&bytes).unwrap();
    assert_eq!(parsed.signature, vec![7u8; 96]);
    assert_eq!(parsed.signature_bit_set, vec![1]);
}

#[test]
fn payload_decoding_errors() {
    let reg = L1ValidatorRegistrationMessage::new(Id::from_slice(&[1u8; 32]), true);
    let mut bytes = reg.to_bytes().unwrap();
    assert_eq!(bytes.len(), 39);
    assert_eq!(
        L1ValidatorWeightMessage::from_bytes(&bytes),
        Err(Error::TypeIdMismatch(2))
    );
    bytes[38] = 2;
    assert_eq!(L1ValidatorRegistrationMessage::from_bytes(&bytes), Err(Error::InvalidBool(2)));
    assert_eq!(L1ValidatorRegistrationMessage::from_bytes(&bytes[..38]), Err(Error::UnexpectedEnd));
}

#[test]
fn register_validator_payload_roundtrip_and_limit() {
    let m = RegisterL1ValidatorMessage {
        subnet_id: Id::from_slice(&[1u8; 32]),
        node_id: ids::node::Id::from_slice(&[2u8; 20]),
        bls_public_key: vec![3u8; 48],
        expiry: 99,
        remaining_balance_owner: vec![4u8; 12],
        disable_owner: vec![5u8; 8],
        weight: 1000,
    };
    let bytes = m.to_bytes().unwrap();
    assert_eq!(RegisterL1ValidatorMessage::from_bytes(&bytes).unwrap(), m);
    let big = RegisterL1ValidatorMessage { remaining_balance_owner: vec![0u8; 500], ..m };
    assert_eq!(big.to_bytes(), Err(Error::InsufficientSpace { max_size: 512 }));
}

#[test]
fn warp_message_signed_by_its_only_validator_verifies() {
    let sk = bls::private_key::Key::generate().unwrap();
    let pk = sk.to_public_key();
    let mut unsigned = UnsignedMessage::new(1, Id::from_slice(&[3u8; 32]), vec![1, 2, 3]);
    let encoding = unsigned.to_bytes().unwrap();
    let sig = sk.sign(&encoding);
    let mut msg = Message::new(unsigned, vec![0b0000_0001], sig.to_bytes());
    assert_eq!(msg.verify(&[(pk, 10)]), Ok(true));

    let mut unsigned_bit = msg.clone();
    unsigned_bit.signature_bit_set = vec![0];
    assert_eq!(unsigned_bit.verify(&[(pk, 10)]), Ok(false));

    let mut other_payload =
        Message::new(UnsignedMessage::new(1, Id::empty(), vec![9]), vec![1], sig.to_bytes());
    assert_eq!(other_payload.verify(&[(pk, 10)]), Ok(false));

    let mut bad_signature = msg.clone();
    bad_signature.signature = vec![0u8; 96];
    assert_eq!(bad_signature.verify(&[(pk, 10)]), Err(Error::InvalidSignature));

    let mut bad_key = msg.clone();
    assert_eq!(
        bad_key.verify(&[(bls::public_key::Key::default(), 10)]),
        Err(Error::AggregationFailed)
    );
}

#[test]
fn bls_keys_and_signatures() {
    let sk = bls::private_key::Key::generate().unwrap();
    let pk = sk.to_public_key();
    let restored = bls::public_key::Key::from_bytes(&pk.to_compressed_bytes()).unwrap();
    assert_eq!(restored, pk);
    assert_eq!(bls::public_key::Key::from_bytes(&[0u8; 48]), Err(Error::InvalidKey));
    assert_eq!(bls::public_key::Key::from_bytes(&[1u8; 47]), Err(Error::InvalidKey));
    let sig = sk.sign_proof_of_possession(&[1, 2]);
    let parsed = bls::signature::Sig::from_bytes(&sig.to_compressed_bytes()).unwrap();
    assert_eq!(parsed, sig);
    assert!(pk.verify(&[1, 2], &sk.sign(&[1, 2])));
    assert!(!pk.verify(&[1, 2], &sig));
    assert_eq!(bls::signature::Sig::from_bytes(&[0u8; 95]), Err(Error::InvalidSignature));
}

// ---------------------------------------------------------------------------
// secp256r1 keys
// ---------------------------------------------------------------------------

#[test]
fn private_key_known_answers() {
    let key = PrivateKey::from_bytes(&secret_one()).unwrap();
    assert_eq!(key.to_hex(), format!("0x{}", hex::encode(secret_one())));
    let pk = key.to_public_key();
    assert_eq!(pk.to_hex(), GENERATOR_COMPRESSED);
    assert_eq!(PublicKey::from_hex(GENERATOR_COMPRESSED).unwrap(), pk);
}

#[test]
fn private_key_range_checks() {
    assert_eq!(
        PrivateKey::from_bytes(&[1u8; 31]),
        Err(Error::SecretKeyLength { actual: 31 })
    );
    assert_eq!(PrivateKey::from_bytes(&[0u8; 32]), Err(Error::InvalidSecretKey));
    let order = hex::decode(P256_ORDER).unwrap();
    assert_eq!(PrivateKey::from_bytes(&order), Err(Error::InvalidSecretKey));
    let mut below = order.clone();
    below[31] -= 1;
    assert!(PrivateKey::from_bytes(&below).is_ok());
}

#[test]
fn private_key_hex_forms() {
    let key = PrivateKey::from_bytes(&secret_one()).unwrap();
    let text = hex::encode(secret_one());
    assert_eq!(PrivateKey::from_hex(&text).unwrap(), key);
    assert_eq!(PrivateKey::from_hex(&format!("0x0x{}", text)).unwrap(), key);
    assert_eq!(PrivateKey::from_hex(&text.to_uppercase()).unwrap(), key);
    assert_eq!(PrivateKey::from_hex("0x123"), Err(Error::InvalidHex(HexError::OddLength)));
    assert_eq!(
        PrivateKey::from_hex("0zz1"),
        Err(Error::InvalidHex(HexError::InvalidCharacter { c: 'z', index: 1 }))
    );
    assert_eq!(
        PrivateKey::from_hex("0x0102"),
        Err(Error::SecretKeyLength { actual: 2 })
    );
}

#[test]
fn signatures_verify_under_their_key_only() {
    let key = PrivateKey::generate().unwrap();
    let pk = key.to_public_key();
    let sig = key.sign(b"hello").unwrap();
    assert_eq!(sig.len(), 64);
    assert_eq!(pk.verify(b"hello", &sig), Ok(true));
    assert_eq!(pk.verify(b"hellp", &sig), Ok(false));
    assert_eq!(pk.verify(b"hello", &sig[..63]), Ok(false));
    let digest = hash::sha256(b"hello");
    assert_eq!(key.sign_digest(&digest).unwrap(), sig);
    assert_eq!(
        key.sign_digest(&digest[..16]),
        Err(Error::DigestLength { actual: 16 })
    );
}

#[test]
fn public_key_decoding() {
    let key = PrivateKey::generate().unwrap();
    let pk = key.to_public_key();
    let uncompressed = pk.to_uncompressed_bytes();
    assert_eq!(uncompressed[0], 4);
    assert_eq!(PublicKey::from_sec1_bytes(&uncompressed).unwrap(), pk);
    assert_eq!(
        PublicKey::from_compressed_bytes(&uncompressed),
        Err(Error::InvalidLength { required: 33, actual: 65 })
    );
    assert_eq!(PublicKey::from_sec1_bytes(&[]), Err(Error::InvalidPublicKey));
    assert_eq!(
        PublicKey::from_hex("0xzz"),
        Err(Error::InvalidHex(HexError::InvalidCharacter { c: 'z', index: 0 }))
    );
}

#[test]
fn error_messages() {
    assert_eq!(Error::NoValidators.message(), "no validators provided");
    assert_eq!(Error::UnsupportedCodecVersion(3).message(), "unsupported codec version: 3");
    assert_eq!(
        Error::UnexpectedTypeId { got: 12, expected: 3 }.message(),
        "unexpected type id: 12, expected: 3"
    );
    assert_eq!(
        Error::InvalidLength { required: 32, actual: 0 }.message(),
        "must be 32-byte, got 0-byte"
    );
    assert_eq!(Error::InvalidBool(255).message(), "unexpected value when unpacking bool: 255");
    assert_eq!(Error::InsufficientSpace { max_size: 1024 }.message(), "needed size exceeds max size 1024");
    assert_eq!(Error::TypeIdMismatch(12).message(), "unexpected type id: 12");
    assert_eq!(
        Error::SecretKeyLength { actual: 31 }.message(),
        "p256::SecretKey must be 32-byte, got 31-byte"
    );
    assert_eq!(
        Error::DigestLength { actual: 16 }.message(),
        "sign_digest only takes 32-byte, got 16-byte"
    );
    assert_eq!(Error::SigningFailed.message(), "failed sign_prehash 'signature error'");
    assert_eq!(
        PrivateKey::from_hex("0zz1").unwrap_err().message(),
        "failed hex::decode 'Invalid character 'z' at position 1'"
    );
    assert_eq!(
        PrivateKey::from_hex("123").unwrap_err().message(),
        "failed hex::decode 'Odd number of digits'"
    );
    assert_eq!(
        PrivateKey::from_bytes(&[0u8; 32]).unwrap_err().message(),
        "failed p256::SecretKey::from_slice crypto error"
    );
    assert_eq!(
        PublicKey::from_sec1_bytes(&[]).unwrap_err().message(),
        "failed PublicKey::from_sec1_bytes crypto error"
    );
}

#[test]
fn convert_tx_encoding_and_signing_record() {
    let mut base = txs::Tx::default();
    base.network_id = 5;
    let mut tx = convert_subnet_to_l1::Tx::new(
        base,
        Id::from_slice(&[1u8; 32]),
        Id::from_slice(&[2u8; 32]),
        vec![0xAB],
        vec![],
    );
    let unsigned = tx.unsigned_bytes();
    let mut expected = vec![0, 0, 0, 0, 0, 31, 0, 0, 0, 5];
    expected.extend_from_slice(&[0u8; 32]);
    expected.extend_from_slice(&[0u8; 12]);
    expected.extend_from_slice(&[1u8; 32]);
    expected.extend_from_slice(&[2u8; 32]);
    expected.extend_from_slice(&[0, 0, 0, 1, 0xAB, 0, 0, 0, 0, 0, 0, 0, 10, 0, 0, 0, 0]);
    assert_eq!(unsigned, expected);

    let creds = vec![avalanche_types::key::secp256k1::txs::Credential {
        signatures: vec![vec![7u8; 65]],
    }];
    assert_eq!(tx.signing_digest(), hash::sha256(&unsigned));
    tx.record_signatures(creds.clone());
    let mut signed = unsigned.clone();
    signed.extend_from_slice(&[0, 0, 0, 1, 0, 0, 0, 9, 0, 0, 0, 1]);
    signed.extend_from_slice(&[7u8; 65]);
    let metadata = tx.base_tx.metadata.clone().unwrap();
    assert_eq!(metadata.tx_bytes_with_no_signature, unsigned);
    assert_eq!(metadata.tx_bytes_with_signatures, signed);
    assert_eq!(tx.tx_id(), Id::from_slice(&hash::sha256(&signed)));
    assert_eq!(tx.creds, creds);
}

#[test]
fn convert_tx_encodes_validators_inline() {
    let v = InitialL1Validator::new(
        ids::node::Id::from_slice(&[9u8; 20]),
        vec![3u8; 48],
        7,
        PChainOwner::default(),
        PChainOwner::single(ids::short::Id::from_slice(&[4u8; 20])),
    );
    let tx = convert_subnet_to_l1::Tx::new(txs::Tx::default(), Id::empty(), Id::empty(), vec![], vec![v]);
    let unsigned = tx.unsigned_bytes();
    let mut validator = vec![0, 0, 0, 20];
    validator.extend_from_slice(&[9u8; 20]);
    validator.extend_from_slice(&[0, 0, 0, 0, 0, 0, 0, 7]);
    validator.extend_from_slice(&[0u8; 8]);
    validator.extend_from_slice(&[3u8; 48]);
    validator.extend_from_slice(&[0u8; 96]);
    validator.extend_from_slice(&[0u8; 8]);
    validator.extend_from_slice(&[0, 0, 0, 1, 0, 0, 0, 1]);
    validator.extend_from_slice(&[4u8; 20]);
    let head_len = 2 + 4 + 4 + 32 + 12 + 32 + 32 + 4;
    assert_eq!(&unsigned[head_len..head_len + 4], &[0, 0, 0, 1]);
    assert_eq!(&unsigned[head_len + 4..head_len + 4 + validator.len()], validator.as_slice());
    assert_eq!(unsigned.len(), head_len + 4 + validator.len() + 8);
}
