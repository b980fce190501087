//! Cryptographic keys: BLS (Warp signatures), secp256k1 transaction inputs and
//! credentials, and secp256r1 (P-256).
pub mod bls;
pub mod secp256k1;
pub mod secp256r1;
pub mod random;
