//! secp256r1 public keys.
use avalanche_types::key::secp256r1::private_key::Key as PrivateKey;
use avalanche_types::key::secp256r1::public_key::{Key, LEN, UNCOMPRESSED_LEN};

#[test]
fn test_public_key_roundtrip() {
    let pk = PrivateKey::generate().unwrap();
    let pubkey1 = pk.to_public_key();

    // Test compressed bytes roundtrip
    let compressed = pubkey1.to_compressed_bytes();
    assert_eq!(compressed.len(), LEN);
    let pubkey2 = Key::from_sec1_bytes(&compressed).unwrap();
    assert_eq!(pubkey1, pubkey2);

    // Test uncompressed bytes roundtrip
    let uncompressed = pubkey1.to_uncompressed_bytes();
    assert_eq!(uncompressed.len(), UNCOMPRESSED_LEN);
    let pubkey3 = Key::from_sec1_bytes(&uncompressed).unwrap();
    assert_eq!(pubkey1, pubkey3);
}

#[test]
fn test_public_key_hex_roundtrip() {
    let pk = PrivateKey::generate().unwrap();
    let pubkey1 = pk.to_public_key();

    let hex = pubkey1.to_hex();
    let pubkey2 = Key::from_hex(&hex).unwrap();
    assert_eq!(pubkey1, pubkey2);
}
