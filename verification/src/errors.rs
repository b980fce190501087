//! Errors returned by the library.
use vstd::prelude::*;
use vstd::string::StringExecFns;

verus! {

/// Why hexadecimal text could not be decoded.
#[derive(Debug, Clone, Copy, PartialEq, Eq)]
pub enum HexError {
    /// A character that is not a hexadecimal digit, and its position.
    InvalidCharacter { c: char, index: usize },
    /// The text has an odd number of digits.
    OddLength,
    /// The text does not have the length that the output needs.
    InvalidStringLength,
}

/// Why an operation failed.
#[derive(Debug, Clone, PartialEq, Eq)]
pub enum Error {
    /// The input ended before a field could be read.
    UnexpectedEnd,
    /// The leading codec version is not the supported one (0).
    UnsupportedCodecVersion(u16),
    /// The type ID that was read is not the one the decoded type has
    /// (reported with the expected one).
    UnexpectedTypeId { got: u32, expected: u32 },
    /// The type ID that was read is not the one the decoded type has
    /// (reported alone).
    TypeIdMismatch(u32),
    /// A byte that encodes a boolean was neither 0 nor 1.
    InvalidBool(u8),
    /// The encoding needs more bytes than the packer allows.
    InsufficientSpace { max_size: usize },
    /// An input has the wrong length.
    InvalidLength { required: usize, actual: usize },
    /// A secp256r1 secret key is not 32 bytes long.
    SecretKeyLength { actual: usize },
    /// A digest to sign is not 32 bytes long.
    DigestLength { actual: usize },
    /// A string is not valid hexadecimal.
    InvalidHex(HexError),
    /// Bytes are not a secp256r1 secret scalar.
    InvalidSecretKey,
    /// Bytes are not a SEC1 encoding of a secp256r1 point.
    InvalidPublicKey,
    /// Key bytes are not a valid BLS key.
    InvalidKey,
    /// Signature bytes are not a valid signature.
    InvalidSignature,
    /// A signing operation failed.
    SigningFailed,
    /// The system random number generator failed.
    RandomFailed,
    /// Signature verification was asked for with no validators.
    NoValidators,
    /// The public keys of the signers could not be aggregated.
    AggregationFailed,
}

/// The decimal digits of `n`, most significant first.
pub open spec fn decimal_chars(n: nat) -> Seq<char>
    decreases n,
{
    if n < 10 {
        seq![(48 + n) as char]
    } else {
        decimal_chars(n / 10).push((48 + n % 10) as char)
    }
}

/// Calls `u64::to_string`.
/// Trusted: the result is the decimal text of `n` with no sign, no padding
/// and no separators, as std documents for integers' `Display`.
#[verifier::external_body]
fn decimal_text(n: u64) -> (s: String)
    ensures
        s@ == decimal_chars(n as nat),
{
    n.to_string()
}

/// The text that `char`'s `Debug` gives for `c`: the character between single
/// quotes, escaped where it is not printable.
pub uninterp spec fn spec_char_debug(c: char) -> Seq<char>;

/// Calls `char`'s `Debug` (through `format!("{:?}", c)`).
/// Trusted: the result depends on the character alone (named `spec_char_debug`).
#[verifier::external_body]
fn char_debug(c: char) -> (s: String)
    ensures
        s@ == spec_char_debug(c),
{
    format!("{:?}", c)
}

/// The text that `hex` gives for a decoding error.
pub open spec fn hex_error_text(h: HexError) -> Seq<char> {
    match h {
        HexError::InvalidCharacter { c, index } => "Invalid character "@ + spec_char_debug(c)
            + " at position "@ + decimal_chars(index as nat),
        HexError::OddLength => "Odd number of digits"@,
        HexError::InvalidStringLength => "Invalid string length"@,
    }
}

/// The description of `e` that `Error::message` gives, with the values it carries.
pub open spec fn message_of(e: Error) -> Seq<char> {
    match e {
        Error::UnexpectedEnd => "bad length to read: unexpected end of input"@,
        Error::UnsupportedCodecVersion(v) => "unsupported codec version: "@ + decimal_chars(v as nat),
        Error::UnexpectedTypeId { got, expected } => "unexpected type id: "@ + decimal_chars(got as nat)
            + ", expected: "@ + decimal_chars(expected as nat),
        Error::TypeIdMismatch(got) => "unexpected type id: "@ + decimal_chars(got as nat),
        Error::InvalidBool(b) => "unexpected value when unpacking bool: "@ + decimal_chars(b as nat),
        Error::InsufficientSpace { max_size } => "needed size exceeds max size "@ + decimal_chars(
            max_size as nat,
        ),
        Error::InvalidLength { required, actual } => "must be "@ + decimal_chars(required as nat)
            + "-byte, got "@ + decimal_chars(actual as nat) + "-byte"@,
        Error::SecretKeyLength { actual } => "p256::SecretKey must be 32-byte, got "@
            + decimal_chars(actual as nat) + "-byte"@,
        Error::DigestLength { actual } => "sign_digest only takes 32-byte, got "@ + decimal_chars(
            actual as nat,
        ) + "-byte"@,
        Error::InvalidHex(h) => "failed hex::decode '"@ + hex_error_text(h) + "'"@,
        Error::InvalidSecretKey => "failed p256::SecretKey::from_slice crypto error"@,
        Error::InvalidPublicKey => "failed PublicKey::from_sec1_bytes crypto error"@,
        Error::InvalidKey => "invalid key bytes"@,
        Error::InvalidSignature => "invalid signature bytes"@,
        Error::SigningFailed => "failed sign_prehash 'signature error'"@,
        Error::RandomFailed => "failed secure_random ring::error::Unspecified"@,
        Error::NoValidators => "no validators provided"@,
        Error::AggregationFailed => "failed to aggregate public keys"@,
    }
}

/// The text that `hex` gives for a decoding error.
fn hex_error_message(h: &HexError) -> (s: String)
    ensures
        s@ == hex_error_text(*h),
{
    match h {
        HexError::InvalidCharacter { c, index } => "Invalid character ".to_owned().concat(
            char_debug(*c).as_str(),
        ).concat(" at position ").concat(decimal_text(*index as u64).as_str()),
        HexError::OddLength => "Odd number of digits".to_owned(),
        HexError::InvalidStringLength => "Invalid string length".to_owned(),
    }
}

impl Error {
    /// A human-readable description of the error, with the values it carries.
    pub fn message(&self) -> (s: String)
        ensures
            s@ == message_of(*self),
    {
        match self {
            Error::UnexpectedEnd => "bad length to read: unexpected end of input".to_owned(),
            Error::UnsupportedCodecVersion(v) => "unsupported codec version: ".to_owned().concat(
                decimal_text(*v as u64).as_str(),
            ),
            Error::UnexpectedTypeId { got, expected } => "unexpected type id: ".to_owned().concat(
                decimal_text(*got as u64).as_str(),
            ).concat(", expected: ").concat(decimal_text(*expected as u64).as_str()),
            Error::TypeIdMismatch(got) => "unexpected type id: ".to_owned().concat(
                decimal_text(*got as u64).as_str(),
            ),
            Error::InvalidBool(b) => "unexpected value when unpacking bool: ".to_owned().concat(
                decimal_text(*b as u64).as_str(),
            ),
            Error::InsufficientSpace { max_size } => "needed size exceeds max size ".to_owned().concat(
                decimal_text(*max_size as u64).as_str(),
            ),
            Error::InvalidLength { required, actual } => "must be ".to_owned().concat(
                decimal_text(*required as u64).as_str(),
            ).concat("-byte, got ").concat(decimal_text(*actual as u64).as_str()).concat("-byte"),
            Error::SecretKeyLength { actual } => "p256::SecretKey must be 32-byte, got ".to_owned().concat(
                decimal_text(*actual as u64).as_str(),
            ).concat("-byte"),
            Error::DigestLength { actual } => "sign_digest only takes 32-byte, got ".to_owned().concat(
                decimal_text(*actual as u64).as_str(),
            ).concat("-byte"),
            Error::InvalidHex(h) => "failed hex::decode '".to_owned().concat(
                hex_error_message(h).as_str(),
            ).concat("'"),
            Error::InvalidSecretKey => "failed p256::SecretKey::from_slice crypto error".to_owned(),
            Error::InvalidPublicKey => "failed PublicKey::from_sec1_bytes crypto error".to_owned(),
            Error::InvalidKey => "invalid key bytes".to_owned(),
            Error::InvalidSignature => "invalid signature bytes".to_owned(),
            Error::SigningFailed => "failed sign_prehash 'signature error'".to_owned(),
            Error::RandomFailed => "failed secure_random ring::error::Unspecified".to_owned(),
            Error::NoValidators => "no validators provided".to_owned(),
            Error::AggregationFailed => "failed to aggregate public keys".to_owned(),
        }
    }
}

/// The library's result type.
pub type Result<T> = core::result::Result<T, Error>;

} // verus!
