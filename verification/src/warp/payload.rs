//! Warp message payload types for L1 validator management.
//!
//! Every payload is encoded as a codec version (`u16`, always 0), a type ID
//! (`u32`) and the payload's fields in order, all big-endian.
use vstd::prelude::*;

use crate::errors::{Error, Result};
use crate::ids::{self, Id};
use crate::packer::{self, get_bytes, get_u16, get_u32, get_u64, put_bool, put_bytes, put_bytes_with_header, put_u16, put_u32, put_u64};

verus! {

/// Type ID of `SubnetToL1ConversionMessage`.
pub const SUBNET_TO_L1_CONVERSION_TYPE_ID: u32 = 0;

/// Type ID of `RegisterL1ValidatorMessage`.
pub const REGISTER_L1_VALIDATOR_TYPE_ID: u32 = 1;

/// Type ID of `L1ValidatorRegistrationMessage`.
pub const L1_VALIDATOR_REGISTRATION_TYPE_ID: u32 = 2;

/// Type ID of `L1ValidatorWeightMessage`.
pub const L1_VALIDATOR_WEIGHT_TYPE_ID: u32 = 3;

/// The largest encoding that `RegisterL1ValidatorMessage::to_bytes` produces.
pub const REGISTER_L1_VALIDATOR_MAX_SIZE: usize = 512;

// ---------------------------------------------------------------------------
// The common prefix: codec version and type ID
// ---------------------------------------------------------------------------

/// The first six bytes of every payload of the given type.
pub open spec fn payload_prefix(type_id: u32) -> Seq<u8> {
    packer::u16_bytes(0) + packer::u32_bytes(type_id)
}

/// The error for a type ID `got` where `expected` was due: reported with the
/// expected one when `with_expected`, else alone.
pub open spec fn type_id_error(got: u32, expected: u32, with_expected: bool) -> Error {
    if with_expected {
        Error::UnexpectedTypeId { got, expected }
    } else {
        Error::TypeIdMismatch(got)
    }
}

/// What reading the codec version and the type ID at the start of `b` reports:
/// `None` when both are as expected, else the error.
pub open spec fn header_error(b: Seq<u8>, type_id: u32, with_expected: bool) -> Option<Error> {
    if b.len() < 2 {
        Some(Error::UnexpectedEnd)
    } else if packer::u16_at(b, 0) != 0 {
        Some(Error::UnsupportedCodecVersion(packer::u16_at(b, 0)))
    } else if b.len() < 6 {
        Some(Error::UnexpectedEnd)
    } else if packer::u32_at(b, 2) != type_id {
        Some(type_id_error(packer::u32_at(b, 2), type_id, with_expected))
    } else {
        None
    }
}

/// A payload prefix is accepted by `header_error` for its own type.
pub proof fn lemma_prefix_accepted(type_id: u32, rest: Seq<u8>, with_expected: bool)
    ensures
        header_error(payload_prefix(type_id) + rest, type_id, with_expected) is None,
{
    let s = payload_prefix(type_id) + rest;
    assert(s.subrange(0, 2) =~= packer::u16_bytes(0));
    assert(s.subrange(2, 6) =~= packer::u32_bytes(type_id));
    packer::lemma_u16_at(s, 0, 0);
    packer::lemma_u32_at(s, 2, type_id);
}

/// Reads and checks the codec version and type ID at the start of `b`.
fn check_header(b: &[u8], type_id: u32, with_expected: bool) -> (r: Result<()>)
    ensures
        r == (match header_error(b@, type_id, with_expected) {
            Some(e) => Err(e),
            None => Ok(()),
        }),
{
    let version = match get_u16(b, 0) {
        Some(v) => v,
        None => return Err(Error::UnexpectedEnd),
    };
    if version != 0 {
        return Err(Error::UnsupportedCodecVersion(version));
    }
    let got = match get_u32(b, 2) {
        Some(v) => v,
        None => return Err(Error::UnexpectedEnd),
    };
    if got != type_id {
        if with_expected {
            return Err(Error::UnexpectedTypeId { got, expected: type_id });
        }
        return Err(Error::TypeIdMismatch(got));
    }
    Ok(())
}

/// Reads exactly 32 bytes at `off` as an `Id`.
fn get_id(b: &[u8], off: usize) -> (r: Option<Id>)
    ensures
        r matches Some(id) ==> off + 32 <= b@.len() && id@ == b@.subrange(off as int, off + 32),
        r is None <==> off + 32 > b@.len(),
{
    match get_bytes(b, off, ids::LEN) {
        Some(v) => {
            let id = Id::from_slice(v.as_slice());
            assert(id@ =~= v@);
            Some(id)
        },
        None => None,
    }
}

/// Reads exactly 20 bytes at `off` as a node `Id`.
fn get_node_id(b: &[u8], off: usize) -> (r: Option<ids::node::Id>)
    ensures
        r matches Some(id) ==> off + 20 <= b@.len() && id@ == b@.subrange(off as int, off + 20),
        r is None <==> off + 20 > b@.len(),
{
    match get_bytes(b, off, ids::node::LEN) {
        Some(v) => {
            let id = ids::node::Id::from_slice(v.as_slice());
            assert(id@ =~= v@);
            Some(id)
        },
        None => None,
    }
}

// ---------------------------------------------------------------------------
// SubnetToL1ConversionMessage
// ---------------------------------------------------------------------------

/// Sent when a Subnet is converted to an L1 (emitted by ConvertSubnetToL1Tx).
#[derive(Debug, Clone, Copy, PartialEq, Eq)]
pub struct SubnetToL1ConversionMessage {
    /// ID of the subnet being converted.
    pub subnet_id: Id,
}

/// The encoding of a `SubnetToL1ConversionMessage` with the given subnet ID.
pub open spec fn subnet_to_l1_conversion_bytes(subnet_id: Seq<u8>) -> Seq<u8> {
    payload_prefix(SUBNET_TO_L1_CONVERSION_TYPE_ID) + subnet_id
}

/// What decoding `b` as a `SubnetToL1ConversionMessage` gives: the subnet ID or the error.
pub open spec fn parse_subnet_to_l1_conversion(b: Seq<u8>) -> core::result::Result<Seq<u8>, Error> {
    match header_error(b, SUBNET_TO_L1_CONVERSION_TYPE_ID, true) {
        Some(e) => Err(e),
        None => if b.len() < 38 {
            Err(Error::UnexpectedEnd)
        } else {
            Ok(b.subrange(6, 38))
        },
    }
}

impl SubnetToL1ConversionMessage {
    /// Creates the message for a subnet.
    pub fn new(subnet_id: Id) -> (m: Self)
        ensures
            m.subnet_id == subnet_id,
    {
        Self { subnet_id }
    }

    /// Creates the message for a subnet; the conversion ID is not part of the message.
    pub fn new_with_conversion_id(subnet_id: Id, _conversion_id: Id) -> (m: Self)
        ensures
            m.subnet_id == subnet_id,
    {
        Self { subnet_id }
    }

    /// The payload's type ID.
    pub fn type_id() -> (t: u32)
        ensures
            t == SUBNET_TO_L1_CONVERSION_TYPE_ID,
    {
        SUBNET_TO_L1_CONVERSION_TYPE_ID
    }

    /// Encodes the message: codec version, type ID, subnet ID (38 bytes).
    pub fn to_bytes(&self) -> (r: Result<Vec<u8>>)
        ensures
            r matches Ok(v) && v@ == subnet_to_l1_conversion_bytes(self.subnet_id@),
    {
        let mut buf: Vec<u8> = Vec::new();
        put_u16(&mut buf, 0);
        put_u32(&mut buf, Self::type_id());
        put_bytes(&mut buf, &self.subnet_id.0);
        assert(buf@ =~= subnet_to_l1_conversion_bytes(self.subnet_id@));
        Ok(buf)
    }

    /// Decodes a message; bytes after the 38th are ignored.
    pub fn from_bytes(bytes: &[u8]) -> (r: Result<Self>)
        ensures
            r matches Ok(m) ==> parse_subnet_to_l1_conversion(bytes@) == Ok::<Seq<u8>, Error>(
                m.subnet_id@,
            ),
            r matches Err(e) ==> parse_subnet_to_l1_conversion(bytes@) == Err::<Seq<u8>, Error>(
                e,
            ),
    {
        check_header(bytes, Self::type_id(), true)?;
        match get_id(bytes, 6) {
            Some(subnet_id) => Ok(Self { subnet_id }),
            None => Err(Error::UnexpectedEnd),
        }
    }
}

/// Decoding the encoding of a `SubnetToL1ConversionMessage` gives the message back.
pub proof fn lemma_subnet_to_l1_conversion_roundtrip(subnet_id: Seq<u8>)
    requires
        subnet_id.len() == 32,
    ensures
        parse_subnet_to_l1_conversion(subnet_to_l1_conversion_bytes(subnet_id)) == Ok::<
            Seq<u8>,
            Error,
        >(subnet_id),
{
    let b = subnet_to_l1_conversion_bytes(subnet_id);
    lemma_prefix_accepted(SUBNET_TO_L1_CONVERSION_TYPE_ID, subnet_id, true);
    assert(b.subrange(6, 38) =~= subnet_id);
}

// ---------------------------------------------------------------------------
// RegisterL1ValidatorMessage
// ---------------------------------------------------------------------------

/// Asks for a new L1 validator to be registered (the payload of RegisterL1ValidatorTx).
#[derive(Debug, Clone, PartialEq, Eq)]
pub struct RegisterL1ValidatorMessage {
    /// ID of the L1 (subnet).
    pub subnet_id: Id,
    /// Node ID of the validator.
    pub node_id: ids::node::Id,
    /// BLS public key of the validator (compressed, 48 bytes).
    pub bls_public_key: Vec<u8>,
    /// Unix timestamp at which the registration expires.
    pub expiry: u64,
    /// Encoded owner who receives the remaining balance on removal.
    pub remaining_balance_owner: Vec<u8>,
    /// Encoded owner who can disable the validator.
    pub disable_owner: Vec<u8>,
    /// Initial validator weight.
    pub weight: u64,
}

/// The fields of a `RegisterL1ValidatorMessage` as plain values.
pub ghost struct RegisterL1ValidatorMessageView {
    pub subnet_id: Seq<u8>,
    pub node_id: Seq<u8>,
    pub bls_public_key: Seq<u8>,
    pub expiry: u64,
    pub remaining_balance_owner: Seq<u8>,
    pub disable_owner: Seq<u8>,
    pub weight: u64,
}

impl View for RegisterL1ValidatorMessage {
    type V = RegisterL1ValidatorMessageView;

    open spec fn view(&self) -> RegisterL1ValidatorMessageView {
        RegisterL1ValidatorMessageView {
            subnet_id: self.subnet_id@,
            node_id: self.node_id@,
            bls_public_key: self.bls_public_key@,
            expiry: self.expiry,
            remaining_balance_owner: self.remaining_balance_owner@,
            disable_owner: self.disable_owner@,
            weight: self.weight,
        }
    }
}

/// The encoding of a `RegisterL1ValidatorMessage`.
pub open spec fn register_l1_validator_bytes(m: RegisterL1ValidatorMessageView) -> Seq<u8> {
    payload_prefix(REGISTER_L1_VALIDATOR_TYPE_ID) + m.subnet_id + m.node_id + packer::with_header(
        m.bls_public_key,
    ) + packer::u64_bytes(m.expiry) + packer::with_header(m.remaining_balance_owner) + packer::with_header(
        m.disable_owner,
    ) + packer::u64_bytes(m.weight)
}

/// The length of that encoding, counted without truncating any length header.
pub open spec fn register_l1_validator_size(m: RegisterL1ValidatorMessageView) -> nat {
    86 + m.bls_public_key.len() + m.remaining_balance_owner.len() + m.disable_owner.len()
}

/// What decoding `b` as a `RegisterL1ValidatorMessage` gives.
pub open spec fn parse_register_l1_validator(b: Seq<u8>) -> core::result::Result<
    RegisterL1ValidatorMessageView,
    Error,
> {
    match header_error(b, REGISTER_L1_VALIDATOR_TYPE_ID, true) {
        Some(e) => Err(e),
        None => if b.len() < 62 {
            Err(Error::UnexpectedEnd)
        } else {
            let n1 = packer::u32_at(b, 58) as int;
            let o1 = 62 + n1;
            if b.len() < o1 + 12 {
                Err(Error::UnexpectedEnd)
            } else {
                let n2 = packer::u32_at(b, o1 + 8) as int;
                let o2 = o1 + 12 + n2;
                if b.len() < o2 + 4 {
                    Err(Error::UnexpectedEnd)
                } else {
                    let n3 = packer::u32_at(b, o2) as int;
                    let o3 = o2 + 4 + n3;
                    if b.len() < o3 + 8 {
                        Err(Error::UnexpectedEnd)
                    } else {
                        Ok(
                            RegisterL1ValidatorMessageView {
                                subnet_id: b.subrange(6, 38),
                                node_id: b.subrange(38, 58),
                                bls_public_key: b.subrange(62, o1),
                                expiry: packer::u64_at(b, o1),
                                remaining_balance_owner: b.subrange(o1 + 12, o2),
                                disable_owner: b.subrange(o2 + 4, o3),
                                weight: packer::u64_at(b, o3),
                            },
                        )
                    }
                }
            }
        },
    }
}

impl RegisterL1ValidatorMessage {
    /// The payload's type ID.
    pub fn type_id() -> (t: u32)
        ensures
            t == REGISTER_L1_VALIDATOR_TYPE_ID,
    {
        REGISTER_L1_VALIDATOR_TYPE_ID
    }

    /// Encodes the message; fails when the encoding would exceed 512 bytes.
    pub fn to_bytes(&self) -> (r: Result<Vec<u8>>)
        ensures
            register_l1_validator_size(self@) <= REGISTER_L1_VALIDATOR_MAX_SIZE ==> (r matches Ok(
                v
            ) && v@ == register_l1_validator_bytes(self@)),
            register_l1_validator_size(self@) > REGISTER_L1_VALIDATOR_MAX_SIZE ==> r == Err::<
                Vec<u8>,
                Error,
            >(Error::InsufficientSpace { max_size: REGISTER_L1_VALIDATOR_MAX_SIZE }),
            r matches Ok(v) ==> v@.len() == register_l1_validator_size(self@) && packer::u64_at(
                v@,
                62 + self.bls_public_key@.len() as int,
            ) == self.expiry && packer::u64_at(v@, v@.len() - 8) == self.weight,
    {
        let max = REGISTER_L1_VALIDATOR_MAX_SIZE;
        if self.bls_public_key.len() > max || self.remaining_balance_owner.len() > max
            || self.disable_owner.len() > max || 86 + self.bls_public_key.len()
            + self.remaining_balance_owner.len() + self.disable_owner.len() > max {
            return Err(Error::InsufficientSpace { max_size: max });
        }
        let mut buf: Vec<u8> = Vec::new();
        put_u16(&mut buf, 0);
        put_u32(&mut buf, Self::type_id());
        put_bytes(&mut buf, &self.subnet_id.0);
        put_bytes(&mut buf, &self.node_id.0);
        put_bytes_with_header(&mut buf, self.bls_public_key.as_slice());
        put_u64(&mut buf, self.expiry);
        put_bytes_with_header(&mut buf, self.remaining_balance_owner.as_slice());
        put_bytes_with_header(&mut buf, self.disable_owner.as_slice());
        put_u64(&mut buf, self.weight);
        assert(buf@ =~= register_l1_validator_bytes(self@));
        proof {
            lemma_register_l1_validator_layout(self@);
        }
        Ok(buf)
    }

    /// Decodes a message; bytes after the last field are ignored.
    pub fn from_bytes(bytes: &[u8]) -> (r: Result<Self>)
        ensures
            r matches Ok(m) ==> parse_register_l1_validator(bytes@) == Ok::<
                RegisterL1ValidatorMessageView,
                Error,
            >(m@),
            r matches Err(e) ==> parse_register_l1_validator(bytes@) == Err::<
                RegisterL1ValidatorMessageView,
                Error,
            >(e),
            r matches Ok(m) ==> m.expiry == packer::u64_at(bytes@, 62 + m.bls_public_key@.len() as int)
                && m.weight == packer::u64_at(
                bytes@,
                78 + m.bls_public_key@.len() as int + m.remaining_balance_owner@.len()
                    + m.disable_owner@.len(),
            ),
    {
        proof {
            lemma_register_l1_validator_fields(bytes@);
        }
        check_header(bytes, Self::type_id(), true)?;
        let subnet_id = match get_id(bytes, 6) {
            Some(v) => v,
            None => return Err(Error::UnexpectedEnd),
        };
        let node_id = match get_node_id(bytes, 38) {
            Some(v) => v,
            None => return Err(Error::UnexpectedEnd),
        };
        let n1 = match get_u32(bytes, 58) {
            Some(v) => v,
            None => return Err(Error::UnexpectedEnd),
        };
        let n1 = n1 as usize;
        let bls_public_key = match get_bytes(bytes, 62, n1) {
            Some(v) => v,
            None => return Err(Error::UnexpectedEnd),
        };
        let o1 = 62 + n1;
        let expiry = match get_u64(bytes, o1) {
            Some(v) => v,
            None => return Err(Error::UnexpectedEnd),
        };
        let n2 = match get_u32(bytes, o1 + 8) {
            Some(v) => v,
            None => return Err(Error::UnexpectedEnd),
        };
        let n2 = n2 as usize;
        let remaining_balance_owner = match get_bytes(bytes, o1 + 12, n2) {
            Some(v) => v,
            None => return Err(Error::UnexpectedEnd),
        };
        let o2 = o1 + 12 + n2;
        let n3 = match get_u32(bytes, o2) {
            Some(v) => v,
            None => return Err(Error::UnexpectedEnd),
        };
        let n3 = n3 as usize;
        let disable_owner = match get_bytes(bytes, o2 + 4, n3) {
            Some(v) => v,
            None => return Err(Error::UnexpectedEnd),
        };
        let o3 = o2 + 4 + n3;
        let weight = match get_u64(bytes, o3) {
            Some(v) => v,
            None => return Err(Error::UnexpectedEnd),
        };
        let m = Self {
            subnet_id,
            node_id,
            bls_public_key,
            expiry,
            remaining_balance_owner,
            disable_owner,
            weight,
        };
        assert(m@ == parse_register_l1_validator(bytes@).unwrap());
        Ok(m)
    }
}

/// Decoding the encoding of a `RegisterL1ValidatorMessage` gives the message back,
/// provided its variable-length fields fit their 32-bit length headers.
#[verifier::rlimit(80)]
pub proof fn lemma_register_l1_validator_roundtrip(m: RegisterL1ValidatorMessageView)
    requires
        m.subnet_id.len() == 32,
        m.node_id.len() == 20,
        m.bls_public_key.len() <= u32::MAX,
        m.remaining_balance_owner.len() <= u32::MAX,
        m.disable_owner.len() <= u32::MAX,
    ensures
        parse_register_l1_validator(register_l1_validator_bytes(m)) == Ok::<
            RegisterL1ValidatorMessageView,
            Error,
        >(m),
{
    let b = register_l1_validator_bytes(m);
    let pre = payload_prefix(REGISTER_L1_VALIDATOR_TYPE_ID);
    let rest = m.subnet_id + m.node_id + packer::with_header(m.bls_public_key) + packer::u64_bytes(m.expiry)
        + packer::with_header(m.remaining_balance_owner) + packer::with_header(m.disable_owner) + packer::u64_bytes(
        m.weight,
    );
    assert(b =~= pre + rest);
    lemma_prefix_accepted(REGISTER_L1_VALIDATOR_TYPE_ID, rest, true);
    let n1 = m.bls_public_key.len() as int;
    let o1 = 62 + n1;
    let n2 = m.remaining_balance_owner.len() as int;
    let o2 = o1 + 12 + n2;
    let n3 = m.disable_owner.len() as int;
    let o3 = o2 + 4 + n3;
    assert(b.len() == o3 + 8);
    assert(b.subrange(58, 62) =~= packer::u32_bytes(n1 as u32));
    packer::lemma_u32_at(b, 58, n1 as u32);
    assert(b.subrange(o1, o1 + 8) =~= packer::u64_bytes(m.expiry));
    packer::lemma_u64_at(b, o1, m.expiry);
    assert(b.subrange(o1 + 8, o1 + 12) =~= packer::u32_bytes(n2 as u32));
    packer::lemma_u32_at(b, o1 + 8, n2 as u32);
    assert(b.subrange(o2, o2 + 4) =~= packer::u32_bytes(n3 as u32));
    packer::lemma_u32_at(b, o2, n3 as u32);
    assert(b.subrange(o3, o3 + 8) =~= packer::u64_bytes(m.weight));
    packer::lemma_u64_at(b, o3, m.weight);
    assert(b.subrange(6, 38) =~= m.subnet_id);
    assert(b.subrange(38, 58) =~= m.node_id);
    assert(b.subrange(62, o1) =~= m.bls_public_key);
    assert(b.subrange(o1 + 12, o2) =~= m.remaining_balance_owner);
    assert(b.subrange(o2 + 4, o3) =~= m.disable_owner);
}

// ---------------------------------------------------------------------------
// L1ValidatorRegistrationMessage
// ---------------------------------------------------------------------------

/// Reports whether a validator registration succeeded.
#[derive(Debug, Clone, Copy, PartialEq, Eq)]
pub struct L1ValidatorRegistrationMessage {
    /// Validation ID of the validator.
    pub validation_id: Id,
    /// Whether the registration succeeded.
    pub registered: bool,
}

/// The encoding of an `L1ValidatorRegistrationMessage` (39 bytes).
pub open spec fn l1_validator_registration_bytes(validation_id: Seq<u8>, registered: bool) -> Seq<
    u8,
> {
    payload_prefix(L1_VALIDATOR_REGISTRATION_TYPE_ID) + validation_id + seq![packer::bool_byte(registered)]
}

/// What decoding `b` as an `L1ValidatorRegistrationMessage` gives.
pub open spec fn parse_l1_validator_registration(b: Seq<u8>) -> core::result::Result<
    (Seq<u8>, bool),
    Error,
> {
    match header_error(b, L1_VALIDATOR_REGISTRATION_TYPE_ID, false) {
        Some(e) => Err(e),
        None => if b.len() < 39 {
            Err(Error::UnexpectedEnd)
        } else if b[38] == 0 {
            Ok((b.subrange(6, 38), false))
        } else if b[38] == 1 {
            Ok((b.subrange(6, 38), true))
        } else {
            Err(Error::InvalidBool(b[38]))
        },
    }
}

impl L1ValidatorRegistrationMessage {
    /// Creates the message.
    pub fn new(validation_id: Id, registered: bool) -> (m: Self)
        ensures
            m.validation_id == validation_id,
            m.registered == registered,
    {
        Self { validation_id, registered }
    }

    /// The payload's type ID.
    pub fn type_id() -> (t: u32)
        ensures
            t == L1_VALIDATOR_REGISTRATION_TYPE_ID,
    {
        L1_VALIDATOR_REGISTRATION_TYPE_ID
    }

    /// Encodes the message: codec version, type ID, validation ID, one byte for the flag.
    pub fn to_bytes(&self) -> (r: Result<Vec<u8>>)
        ensures
            r matches Ok(v) && v@ == l1_validator_registration_bytes(
                self.validation_id@,
                self.registered,
            ),
            r matches Ok(v) && v@.len() == 39 && v@[38] == (if self.registered {
                1u8
            } else {
                0u8
            }),
    {
        proof {
            lemma_l1_validator_registration_layout(self.validation_id@, self.registered);
        }
        let mut buf: Vec<u8> = Vec::new();
        put_u16(&mut buf, 0);
        put_u32(&mut buf, Self::type_id());
        put_bytes(&mut buf, &self.validation_id.0);
        put_bool(&mut buf, self.registered);
        assert(buf@ =~= l1_validator_registration_bytes(self.validation_id@, self.registered));
        Ok(buf)
    }

    /// Decodes a message; bytes after the 39th are ignored.
    pub fn from_bytes(bytes: &[u8]) -> (r: Result<Self>)
        ensures
            r matches Ok(m) ==> parse_l1_validator_registration(bytes@) == Ok::<
                (Seq<u8>, bool),
                Error,
            >((m.validation_id@, m.registered)),
            r matches Err(e) ==> parse_l1_validator_registration(bytes@) == Err::<
                (Seq<u8>, bool),
                Error,
            >(e),
            r matches Ok(m) ==> m.validation_id@ == bytes@.subrange(6, 38) && m.registered == (
            bytes@[38] == 1u8) && bytes@[38] <= 1,
    {
        proof {
            lemma_l1_validator_registration_fields(bytes@);
        }
        check_header(bytes, Self::type_id(), false)?;
        let validation_id = match get_id(bytes, 6) {
            Some(v) => v,
            None => return Err(Error::UnexpectedEnd),
        };
        let flag = match get_bytes(bytes, 38, 1) {
            Some(v) => v[0],
            None => return Err(Error::UnexpectedEnd),
        };
        if flag == 0 {
            Ok(Self { validation_id, registered: false })
        } else if flag == 1 {
            Ok(Self { validation_id, registered: true })
        } else {
            Err(Error::InvalidBool(flag))
        }
    }
}

/// Decoding the encoding of an `L1ValidatorRegistrationMessage` gives the message back.
pub proof fn lemma_l1_validator_registration_roundtrip(validation_id: Seq<u8>, registered: bool)
    requires
        validation_id.len() == 32,
    ensures
        parse_l1_validator_registration(l1_validator_registration_bytes(validation_id, registered))
            == Ok::<(Seq<u8>, bool), Error>((validation_id, registered)),
{
    let b = l1_validator_registration_bytes(validation_id, registered);
    let rest = validation_id + seq![packer::bool_byte(registered)];
    assert(b =~= payload_prefix(L1_VALIDATOR_REGISTRATION_TYPE_ID) + rest);
    lemma_prefix_accepted(L1_VALIDATOR_REGISTRATION_TYPE_ID, rest, false);
    assert(b.subrange(6, 38) =~= validation_id);
    assert(b[38] == packer::bool_byte(registered));
}

// ---------------------------------------------------------------------------
// L1ValidatorWeightMessage
// ---------------------------------------------------------------------------

/// Sets a validator's weight (the payload of SetL1ValidatorWeightTx).
#[derive(Debug, Clone, Copy, PartialEq, Eq)]
pub struct L1ValidatorWeightMessage {
    /// Validation ID of the validator.
    pub validation_id: Id,
    /// Nonce for replay protection (strictly increasing).
    pub nonce: u64,
    /// New weight of the validator (0 removes it).
    pub weight: u64,
}

/// The encoding of an `L1ValidatorWeightMessage` (54 bytes).
pub open spec fn l1_validator_weight_bytes(validation_id: Seq<u8>, nonce: u64, weight: u64) -> Seq<
    u8,
> {
    payload_prefix(L1_VALIDATOR_WEIGHT_TYPE_ID) + validation_id + packer::u64_bytes(nonce) + packer::u64_bytes(
        weight,
    )
}

/// What decoding `b` as an `L1ValidatorWeightMessage` gives.
pub open spec fn parse_l1_validator_weight(b: Seq<u8>) -> core::result::Result<
    (Seq<u8>, u64, u64),
    Error,
> {
    match header_error(b, L1_VALIDATOR_WEIGHT_TYPE_ID, false) {
        Some(e) => Err(e),
        None => if b.len() < 54 {
            Err(Error::UnexpectedEnd)
        } else {
            Ok((b.subrange(6, 38), packer::u64_at(b, 38), packer::u64_at(b, 46)))
        },
    }
}

impl L1ValidatorWeightMessage {
    /// Creates the message.
    pub fn new(validation_id: Id, nonce: u64, weight: u64) -> (m: Self)
        ensures
            m.validation_id == validation_id,
            m.nonce == nonce,
            m.weight == weight,
    {
        Self { validation_id, nonce, weight }
    }

    /// The payload's type ID.
    pub fn type_id() -> (t: u32)
        ensures
            t == L1_VALIDATOR_WEIGHT_TYPE_ID,
    {
        L1_VALIDATOR_WEIGHT_TYPE_ID
    }

    /// Encodes the message: codec version, type ID, validation ID, nonce, weight.
    pub fn to_bytes(&self) -> (r: Result<Vec<u8>>)
        ensures
            r matches Ok(v) && v@ == l1_validator_weight_bytes(
                self.validation_id@,
                self.nonce,
                self.weight,
            ),
            r matches Ok(v) && v@.len() == 54 && packer::u64_at(v@, 38) == self.nonce
                && packer::u64_at(v@, 46) == self.weight,
    {
        proof {
            lemma_l1_validator_weight_layout(self.validation_id@, self.nonce, self.weight);
        }
        let mut buf: Vec<u8> = Vec::new();
        put_u16(&mut buf, 0);
        put_u32(&mut buf, Self::type_id());
        put_bytes(&mut buf, &self.validation_id.0);
        put_u64(&mut buf, self.nonce);
        put_u64(&mut buf, self.weight);
        assert(buf@ =~= l1_validator_weight_bytes(self.validation_id@, self.nonce, self.weight));
        Ok(buf)
    }

    /// Decodes a message; bytes after the 54th are ignored.
    pub fn from_bytes(bytes: &[u8]) -> (r: Result<Self>)
        ensures
            r matches Ok(m) ==> parse_l1_validator_weight(bytes@) == Ok::<
                (Seq<u8>, u64, u64),
                Error,
            >((m.validation_id@, m.nonce, m.weight)),
            r matches Err(e) ==> parse_l1_validator_weight(bytes@) == Err::<
                (Seq<u8>, u64, u64),
                Error,
            >(e),
            r matches Ok(m) ==> m.validation_id@ == bytes@.subrange(6, 38) && m.nonce
                == packer::u64_at(bytes@, 38) && m.weight == packer::u64_at(bytes@, 46),
    {
        proof {
            lemma_l1_validator_weight_fields(bytes@);
        }
        check_header(bytes, Self::type_id(), false)?;
        let validation_id = match get_id(bytes, 6) {
            Some(v) => v,
            None => return Err(Error::UnexpectedEnd),
        };
        let nonce = match get_u64(bytes, 38) {
            Some(v) => v,
            None => return Err(Error::UnexpectedEnd),
        };
        let weight = match get_u64(bytes, 46) {
            Some(v) => v,
            None => return Err(Error::UnexpectedEnd),
        };
        Ok(Self { validation_id, nonce, weight })
    }
}

/// Decoding the encoding of an `L1ValidatorWeightMessage` gives the message back.
pub proof fn lemma_l1_validator_weight_roundtrip(validation_id: Seq<u8>, nonce: u64, weight: u64)
    requires
        validation_id.len() == 32,
    ensures
        parse_l1_validator_weight(l1_validator_weight_bytes(validation_id, nonce, weight)) == Ok::<
            (Seq<u8>, u64, u64),
            Error,
        >((validation_id, nonce, weight)),
{
    let b = l1_validator_weight_bytes(validation_id, nonce, weight);
    let rest = validation_id + packer::u64_bytes(nonce) + packer::u64_bytes(weight);
    assert(b =~= payload_prefix(L1_VALIDATOR_WEIGHT_TYPE_ID) + rest);
    lemma_prefix_accepted(L1_VALIDATOR_WEIGHT_TYPE_ID, rest, false);
    assert(b.subrange(6, 38) =~= validation_id);
    assert(b.subrange(38, 46) =~= packer::u64_bytes(nonce));
    assert(b.subrange(46, 54) =~= packer::u64_bytes(weight));
    packer::lemma_u64_at(b, 38, nonce);
    packer::lemma_u64_at(b, 46, weight);
}

// ---------------------------------------------------------------------------
// Where each field stands on the wire
// ---------------------------------------------------------------------------

/// The encoding of a weight message is 54 bytes: the validation ID at bytes
/// 6..38, then the nonce as a big-endian `u64` at 38, then the weight at 46.
pub proof fn lemma_l1_validator_weight_layout(validation_id: Seq<u8>, nonce: u64, weight: u64)
    requires
        validation_id.len() == 32,
    ensures
        ({
            let b = l1_validator_weight_bytes(validation_id, nonce, weight);
            &&& b.len() == 54
            &&& b.subrange(6, 38) == validation_id
            &&& b.subrange(38, 46) == packer::u64_bytes(nonce)
            &&& b.subrange(46, 54) == packer::u64_bytes(weight)
            &&& packer::u64_at(b, 38) == nonce
            &&& packer::u64_at(b, 46) == weight
        }),
{
    let b = l1_validator_weight_bytes(validation_id, nonce, weight);
    assert(b.subrange(6, 38) =~= validation_id);
    assert(b.subrange(38, 46) =~= packer::u64_bytes(nonce));
    assert(b.subrange(46, 54) =~= packer::u64_bytes(weight));
    packer::lemma_u64_at(b, 38, nonce);
    packer::lemma_u64_at(b, 46, weight);
}

/// Decoding a weight message reads the validation ID from bytes 6..38, the
/// nonce from the big-endian `u64` at 38 and the weight from the one at 46.
pub proof fn lemma_l1_validator_weight_fields(b: Seq<u8>)
    ensures
        parse_l1_validator_weight(b) matches Ok((id, nonce, weight)) ==> b.len() >= 54 && id
            == b.subrange(6, 38) && nonce == packer::u64_at(b, 38) && weight == packer::u64_at(
            b,
            46,
        ),
{
}

/// The encoding of a registration message is 39 bytes, the last one 1 when
/// the registration succeeded and 0 when it failed.
pub proof fn lemma_l1_validator_registration_layout(validation_id: Seq<u8>, registered: bool)
    requires
        validation_id.len() == 32,
    ensures
        ({
            let b = l1_validator_registration_bytes(validation_id, registered);
            &&& b.len() == 39
            &&& b.subrange(6, 38) == validation_id
            &&& b[38] == (if registered {
                1u8
            } else {
                0u8
            })
        }),
{
    let b = l1_validator_registration_bytes(validation_id, registered);
    assert(b.subrange(6, 38) =~= validation_id);
}

/// Decoding a registration message reads "registered" when byte 38 is 1 and
/// "not registered" when it is 0, and rejects any other byte there.
pub proof fn lemma_l1_validator_registration_fields(b: Seq<u8>)
    ensures
        parse_l1_validator_registration(b) matches Ok((id, registered)) ==> b.len() >= 39 && id
            == b.subrange(6, 38) && b[38] <= 1 && registered == (b[38] == 1u8),
        b.len() >= 39 && header_error(b, L1_VALIDATOR_REGISTRATION_TYPE_ID, false) is None
            && b[38] > 1 ==> parse_l1_validator_registration(b) == Err::<(Seq<u8>, bool), Error>(
            Error::InvalidBool(b[38]),
        ),
{
}

/// In the encoding of a registration request, the expiry is the big-endian
/// `u64` right after the BLS key (and its length header), and the weight is
/// the last eight bytes.
pub proof fn lemma_register_l1_validator_layout(m: RegisterL1ValidatorMessageView)
    requires
        m.subnet_id.len() == 32,
        m.node_id.len() == 20,
    ensures
        ({
            let b = register_l1_validator_bytes(m);
            let n1 = m.bls_public_key.len() as int;
            &&& b.len() == register_l1_validator_size(m)
            &&& b.subrange(6, 38) == m.subnet_id
            &&& b.subrange(38, 58) == m.node_id
            &&& b.subrange(62, 62 + n1) == m.bls_public_key
            &&& b.subrange(62 + n1, 70 + n1) == packer::u64_bytes(m.expiry)
            &&& packer::u64_at(b, 62 + n1) == m.expiry
            &&& b.subrange(b.len() - 8, b.len() as int) == packer::u64_bytes(m.weight)
            &&& packer::u64_at(b, b.len() - 8) == m.weight
        }),
{
    let b = register_l1_validator_bytes(m);
    let n1 = m.bls_public_key.len() as int;
    let head = payload_prefix(REGISTER_L1_VALIDATOR_TYPE_ID) + m.subnet_id + m.node_id
        + packer::with_header(m.bls_public_key);
    let tail = packer::u64_bytes(m.expiry) + packer::with_header(m.remaining_balance_owner)
        + packer::with_header(m.disable_owner) + packer::u64_bytes(m.weight);
    assert(b =~= head + tail);
    assert(head.len() == 62 + n1);
    assert(b.subrange(6, 38) =~= m.subnet_id);
    assert(b.subrange(38, 58) =~= m.node_id);
    assert(b.subrange(62, 62 + n1) =~= m.bls_public_key);
    assert(b.subrange(62 + n1, 70 + n1) =~= packer::u64_bytes(m.expiry));
    packer::lemma_u64_at(b, 62 + n1, m.expiry);
    assert(b.subrange(b.len() - 8, b.len() as int) =~= packer::u64_bytes(m.weight));
    packer::lemma_u64_at(b, b.len() - 8, m.weight);
}

/// Decoding a registration request reads the expiry from the big-endian
/// `u64` right after the BLS key, and the weight from the eight bytes after
/// the two owners.
pub proof fn lemma_register_l1_validator_fields(b: Seq<u8>)
    ensures
        parse_register_l1_validator(b) matches Ok(m) ==> m.subnet_id == b.subrange(6, 38)
            && m.node_id == b.subrange(38, 58) && m.bls_public_key == b.subrange(
            62,
            62 + m.bls_public_key.len() as int,
        ) && m.expiry == packer::u64_at(b, 62 + m.bls_public_key.len() as int) && m.weight
            == packer::u64_at(
            b,
            78 + m.bls_public_key.len() as int + m.remaining_balance_owner.len()
                + m.disable_owner.len(),
        ),
{
}

} // verus!
