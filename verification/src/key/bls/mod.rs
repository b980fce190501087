//! BLS12-381 keys and signatures (min-pk variant) as used by Warp messages.
pub mod private_key;
pub mod public_key;
pub mod signature;
