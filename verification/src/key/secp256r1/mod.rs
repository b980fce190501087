//! secp256r1 (P-256) keys: ECDSA signatures over SHA-256 digests, as used for
//! biometric authentication (WebAuthn, passkeys).
pub mod curve;
pub mod private_key;
pub mod public_key;

pub use private_key::Key as PrivateKey;
pub use public_key::Key as PublicKey;
