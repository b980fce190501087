//! L1 validator records, P-Chain owners, and the data that identifies a
//! Subnet-to-L1 conversion.
use vstd::prelude::*;

use crate::errors::{Error, Result};
use crate::hash;
use crate::ids::{self, Id};
use crate::packer::{self, get_bytes, get_u32, put_bytes, put_bytes_with_header, put_u32, put_u64};

verus! {

/// BLS public key length (compressed).
pub const BLS_PUBLIC_KEY_LEN: usize = 48;

/// BLS signature length (compressed).
pub const BLS_SIGNATURE_LEN: usize = 96;

/// The largest encoding that `InitialL1Validator::to_bytes` produces.
pub const INITIAL_VALIDATOR_MAX_SIZE: usize = 256;

/// The largest encoding that `ConversionData::to_bytes` produces.
pub const CONVERSION_DATA_MAX_SIZE: usize = 1024;

// ---------------------------------------------------------------------------
// PChainOwner
// ---------------------------------------------------------------------------

/// An owner on the P-Chain: a threshold of signatures from a set of addresses.
#[derive(Debug, Clone, PartialEq, Eq, Default)]
pub struct PChainOwner {
    /// Number of signatures required.
    pub threshold: u32,
    /// Addresses that can provide signatures.
    pub addresses: Vec<ids::short::Id>,
}

/// A `PChainOwner` as plain values.
pub ghost struct PChainOwnerView {
    pub threshold: u32,
    pub addresses: Seq<Seq<u8>>,
}

impl View for PChainOwner {
    type V = PChainOwnerView;

    open spec fn view(&self) -> PChainOwnerView {
        PChainOwnerView {
            threshold: self.threshold,
            addresses: self.addresses@.map_values(|a: ids::short::Id| a@),
        }
    }
}

/// The encoding of an owner: threshold, number of addresses, the addresses.
pub open spec fn owner_bytes(o: PChainOwnerView) -> Seq<u8> {
    packer::u32_bytes(o.threshold) + packer::u32_bytes(o.addresses.len() as u32) + packer::concat_all(
        o.addresses,
    )
}

/// What decoding `b` as an owner gives; bytes after the addresses are ignored.
pub open spec fn parse_owner(b: Seq<u8>) -> core::result::Result<PChainOwnerView, Error> {
    if b.len() < 8 {
        Err(Error::UnexpectedEnd)
    } else {
        let n = packer::u32_at(b, 4) as int;
        if b.len() < 8 + 20 * n {
            Err(Error::UnexpectedEnd)
        } else {
            Ok(
                PChainOwnerView {
                    threshold: packer::u32_at(b, 0),
                    addresses: Seq::new(n as nat, |i: int| b.subrange(8 + 20 * i, 28 + 20 * i)),
                },
            )
        }
    }
}

impl PChainOwner {
    /// Creates an owner with the given threshold and addresses.
    pub fn new(threshold: u32, addresses: Vec<ids::short::Id>) -> (o: Self)
        ensures
            o.threshold == threshold,
            o.addresses@ == addresses@,
    {
        Self { threshold, addresses }
    }

    /// Creates a single-signer owner (threshold 1).
    pub fn single(address: ids::short::Id) -> (o: Self)
        ensures
            o.threshold == 1,
            o.addresses@ == seq![address],
    {
        let o = Self { threshold: 1, addresses: vec![address] };
        assert(o.addresses@ =~= seq![address]);
        o
    }

    /// Encodes the owner.
    pub fn to_bytes(&self) -> (r: Result<Vec<u8>>)
        ensures
            r matches Ok(v) && v@ == owner_bytes(self@),
    {
        let mut buf: Vec<u8> = Vec::new();
        self.pack(&mut buf);
        Ok(buf)
    }

    /// Appends the owner's encoding to `buf`.
    pub fn pack(&self, buf: &mut Vec<u8>)
        ensures
            final(buf)@ == old(buf)@ + owner_bytes(self@),
    {
        let ghost start = buf@;
        put_u32(buf, self.threshold);
        put_u32(buf, self.addresses.len() as u32);
        let ghost head = buf@;
        let ghost addrs = self@.addresses;
        let mut i: usize = 0;
        while i < self.addresses.len()
            invariant
                0 <= i <= self.addresses@.len(),
                addrs == self.addresses@.map_values(|a: ids::short::Id| a@),
                buf@ == head + packer::concat_all(addrs.take(i as int)),
            decreases self.addresses@.len() - i,
        {
            put_bytes(buf, &self.addresses[i].0);
            assert(addrs.take(i as int + 1).drop_last() =~= addrs.take(i as int));
            assert(addrs.take(i as int + 1).last() == self.addresses@[i as int]@);
            i = i + 1;
        }
        assert(addrs.take(addrs.len() as int) =~= addrs);
        assert(buf@ =~= start + owner_bytes(self@));
    }

    /// Decodes an owner; bytes after the addresses are ignored.
    pub fn from_bytes(bytes: &[u8]) -> (r: Result<Self>)
        ensures
            r matches Ok(o) ==> parse_owner(bytes@) == Ok::<PChainOwnerView, Error>(o@),
            r matches Err(e) ==> parse_owner(bytes@) == Err::<PChainOwnerView, Error>(e),
    {
        let threshold = match get_u32(bytes, 0) {
            Some(v) => v,
            None => return Err(Error::UnexpectedEnd),
        };
        let n = match get_u32(bytes, 4) {
            Some(v) => v,
            None => return Err(Error::UnexpectedEnd),
        };
        if (n as u64) * 20 > (bytes.len() - 8) as u64 {
            return Err(Error::UnexpectedEnd);
        }
        let n = n as usize;
        let len = bytes.len();
        let ghost expected = Seq::new(n as nat, |i: int| bytes@.subrange(8 + 20 * i, 28 + 20 * i));
        let mut addresses: Vec<ids::short::Id> = Vec::new();
        let mut i: usize = 0;
        while i < n
            invariant
                0 <= i <= n,
                len == bytes@.len(),
                8 + 20 * n <= len,
                expected == Seq::new(n as nat, |i: int| bytes@.subrange(8 + 20 * i, 28 + 20 * i)),
                addresses@.map_values(|a: ids::short::Id| a@) == expected.take(i as int),
            decreases n - i,
        {
            let off = 8 + 20 * i;
            let a = match get_bytes(bytes, off, ids::short::LEN) {
                Some(v) => v,
                None => return Err(Error::UnexpectedEnd),
            };
            let id = ids::short::Id::from_slice(a.as_slice());
            assert(id@ =~= a@);
            assert(id@ == expected[i as int]);
            let ghost before = addresses@.map_values(|a: ids::short::Id| a@);
            addresses.push(id);
            assert(addresses@.map_values(|a: ids::short::Id| a@) =~= before.push(id@));
            assert(expected.take(i as int + 1) =~= expected.take(i as int).push(id@));
            i = i + 1;
        }
        let o = Self { threshold, addresses };
        assert(o@.addresses =~= expected);
        Ok(o)
    }
}

/// Decoding the encoding of an owner gives it back, when it has at most
/// `u32::MAX` addresses of 20 bytes each.
pub proof fn lemma_owner_roundtrip(o: PChainOwnerView, rest: Seq<u8>)
    requires
        o.addresses.len() <= u32::MAX,
        forall|j: int| 0 <= j < o.addresses.len() ==> #[trigger] o.addresses[j].len() == 20,
    ensures
        parse_owner(owner_bytes(o) + rest) == Ok::<PChainOwnerView, Error>(o),
{
    let b = owner_bytes(o) + rest;
    let n = o.addresses.len();
    let c = packer::concat_all(o.addresses);
    packer::lemma_concat_all_20(o.addresses);
    assert(b.subrange(0, 4) =~= packer::u32_bytes(o.threshold));
    packer::lemma_u32_at(b, 0, o.threshold);
    assert(b.subrange(4, 8) =~= packer::u32_bytes(n as u32));
    packer::lemma_u32_at(b, 4, n as u32);
    let head = packer::u32_bytes(o.threshold) + packer::u32_bytes(n as u32);
    assert(b =~= head + (c + rest));
    let parsed = Seq::new(n, |i: int| b.subrange(8 + 20 * i, 28 + 20 * i));
    assert forall|i: int| 0 <= i < n implies #[trigger] parsed[i] == o.addresses[i] by {
        packer::lemma_subrange_of_concat(head, c + rest, 20 * i, 20 * i + 20);
        assert((c + rest).subrange(20 * i, 20 * i + 20) =~= c.subrange(20 * i, 20 * i + 20));
    }
    assert(parsed =~= o.addresses);
}

// ---------------------------------------------------------------------------
// InitialL1Validator
// ---------------------------------------------------------------------------

/// A validator registered when a permissioned Subnet is converted to an L1.
#[derive(Debug, Clone, PartialEq, Eq)]
pub struct InitialL1Validator {
    /// Node ID of the validator.
    pub node_id: ids::node::Id,
    /// BLS public key for signing Warp messages (compressed, 48 bytes).
    pub bls_public_key: Vec<u8>,
    /// Initial weight of the validator.
    pub weight: u64,
    /// Owner who can remove the validator and receives the remaining balance.
    pub remaining_balance_owner: PChainOwner,
    /// Owner who can disable the validator.
    pub deactivation_owner: PChainOwner,
}

/// An `InitialL1Validator` as plain values.
pub ghost struct InitialL1ValidatorView {
    pub node_id: Seq<u8>,
    pub bls_public_key: Seq<u8>,
    pub weight: u64,
    pub remaining_balance_owner: PChainOwnerView,
    pub deactivation_owner: PChainOwnerView,
}

impl View for InitialL1Validator {
    type V = InitialL1ValidatorView;

    open spec fn view(&self) -> InitialL1ValidatorView {
        InitialL1ValidatorView {
            node_id: self.node_id@,
            bls_public_key: self.bls_public_key@,
            weight: self.weight,
            remaining_balance_owner: self.remaining_balance_owner@,
            deactivation_owner: self.deactivation_owner@,
        }
    }
}

/// The encoding of an initial validator, without the size limit.
pub open spec fn initial_validator_bytes(v: InitialL1ValidatorView) -> Seq<u8> {
    v.node_id + packer::with_header(v.bls_public_key) + packer::u64_bytes(v.weight)
        + packer::with_header(owner_bytes(v.remaining_balance_owner)) + packer::with_header(
        owner_bytes(v.deactivation_owner),
    )
}

/// The length of that encoding, counted without truncating any length header.
pub open spec fn initial_validator_size(v: InitialL1ValidatorView) -> nat {
    40 + v.bls_public_key.len() + owner_bytes(v.remaining_balance_owner).len() + owner_bytes(
        v.deactivation_owner,
    ).len()
}

/// What `InitialL1Validator::to_bytes` gives: the encoding, or an error when it
/// would exceed 256 bytes.
pub open spec fn initial_validator_encoding(v: InitialL1ValidatorView) -> core::result::Result<
    Seq<u8>,
    Error,
> {
    if initial_validator_size(v) > INITIAL_VALIDATOR_MAX_SIZE {
        Err(Error::InsufficientSpace { max_size: INITIAL_VALIDATOR_MAX_SIZE })
    } else {
        Ok(initial_validator_bytes(v))
    }
}

impl InitialL1Validator {
    /// Creates an initial validator.
    pub fn new(
        node_id: ids::node::Id,
        bls_public_key: Vec<u8>,
        weight: u64,
        remaining_balance_owner: PChainOwner,
        deactivation_owner: PChainOwner,
    ) -> (v: Self)
        ensures
            v.node_id == node_id,
            v.bls_public_key@ == bls_public_key@,
            v.weight == weight,
            v.remaining_balance_owner@ == remaining_balance_owner@,
            v.deactivation_owner@ == deactivation_owner@,
    {
        Self { node_id, bls_public_key, weight, remaining_balance_owner, deactivation_owner }
    }

    /// Encodes the validator: node ID, BLS key with a length header, weight, and
    /// both owners' encodings with length headers; fails beyond 256 bytes.
    pub fn to_bytes(&self) -> (r: Result<Vec<u8>>)
        ensures
            r matches Ok(b) ==> initial_validator_encoding(self@) == Ok::<Seq<u8>, Error>(b@),
            r matches Err(e) ==> initial_validator_encoding(self@) == Err::<Seq<u8>, Error>(e),
    {
        let max = INITIAL_VALIDATOR_MAX_SIZE;
        let rbo = self.remaining_balance_owner.to_bytes()?;
        let dao = self.deactivation_owner.to_bytes()?;
        if self.bls_public_key.len() > max || rbo.len() > max || dao.len() > max || 40
            + self.bls_public_key.len() + rbo.len() + dao.len() > max {
            return Err(Error::InsufficientSpace { max_size: max });
        }
        let mut buf: Vec<u8> = Vec::new();
        put_bytes(&mut buf, &self.node_id.0);
        put_bytes_with_header(&mut buf, self.bls_public_key.as_slice());
        put_u64(&mut buf, self.weight);
        put_bytes_with_header(&mut buf, rbo.as_slice());
        put_bytes_with_header(&mut buf, dao.as_slice());
        assert(buf@ =~= initial_validator_bytes(self@));
        Ok(buf)
    }
}

// ---------------------------------------------------------------------------
// L1Validator
// ---------------------------------------------------------------------------

/// The full state of an L1 validator.
#[derive(Debug, Clone, PartialEq, Eq)]
pub struct L1Validator {
    /// Unique validation ID derived from the registration.
    pub validation_id: Id,
    /// The L1 (subnet) this validator belongs to.
    pub subnet_id: Id,
    /// Node ID of the validator.
    pub node_id: ids::node::Id,
    /// BLS public key (compressed, 48 bytes).
    pub bls_public_key: Vec<u8>,
    /// Current weight of the validator.
    pub weight: u64,
    /// Minimum nonce for weight updates (replay protection).
    pub min_nonce: u64,
    /// Current balance allocated to the validator.
    pub balance: u64,
    /// End time if set, or 0 while active.
    pub end_accumulator: u64,
    /// Whether the validator is currently active.
    pub is_active: bool,
    /// Owner who receives the remaining balance on removal.
    pub remaining_balance_owner: PChainOwner,
    /// Owner who can deactivate the validator.
    pub deactivation_owner: PChainOwner,
}

impl L1Validator {
    /// Creates an active validator with zero nonce, balance and end time and
    /// empty (threshold 0, no address) owners.
    pub fn new(
        validation_id: Id,
        subnet_id: Id,
        node_id: ids::node::Id,
        bls_public_key: Vec<u8>,
        weight: u64,
    ) -> (v: Self)
        ensures
            v.validation_id == validation_id,
            v.subnet_id == subnet_id,
            v.node_id == node_id,
            v.bls_public_key@ == bls_public_key@,
            v.weight == weight,
            v.min_nonce == 0,
            v.balance == 0,
            v.end_accumulator == 0,
            v.is_active,
            v.remaining_balance_owner.threshold == 0,
            v.remaining_balance_owner.addresses@.len() == 0,
            v.deactivation_owner.threshold == 0,
            v.deactivation_owner.addresses@.len() == 0,
    {
        Self {
            validation_id,
            subnet_id,
            node_id,
            bls_public_key,
            weight,
            min_nonce: 0,
            balance: 0,
            end_accumulator: 0,
            is_active: true,
            remaining_balance_owner: PChainOwner { threshold: 0, addresses: Vec::new() },
            deactivation_owner: PChainOwner { threshold: 0, addresses: Vec::new() },
        }
    }

    /// True when the validator has been deactivated.
    pub fn is_deactivated(&self) -> (b: bool)
        ensures
            b == !self.is_active,
    {
        !self.is_active
    }

    /// True when the validator has been removed (its weight is 0).
    pub fn is_removed(&self) -> (b: bool)
        ensures
            b == (self.weight == 0),
    {
        self.weight == 0
    }
}

// ---------------------------------------------------------------------------
// ConversionData
// ---------------------------------------------------------------------------

/// The data whose digest is the conversion ID of a Subnet-to-L1 conversion.
#[derive(Debug, Clone, PartialEq, Eq)]
pub struct ConversionData {
    /// The subnet being converted.
    pub subnet_id: Id,
    /// The chain that manages the L1's validator set.
    pub manager_chain_id: Id,
    /// The address on the manager chain.
    pub manager_address: Vec<u8>,
    /// The initial set of validators.
    pub validators: Vec<InitialL1Validator>,
}

/// A `ConversionData` as plain values.
pub ghost struct ConversionDataView {
    pub subnet_id: Seq<u8>,
    pub manager_chain_id: Seq<u8>,
    pub manager_address: Seq<u8>,
    pub validators: Seq<InitialL1ValidatorView>,
}

impl View for ConversionData {
    type V = ConversionDataView;

    open spec fn view(&self) -> ConversionDataView {
        ConversionDataView {
            subnet_id: self.subnet_id@,
            manager_chain_id: self.manager_chain_id@,
            manager_address: self.manager_address@,
            validators: self.validators@.map_values(|v: InitialL1Validator| v@),
        }
    }
}

/// The fields before the validators: subnet ID, manager chain ID, manager
/// address with a length header, number of validators.
pub open spec fn conversion_head(d: ConversionDataView) -> Seq<u8> {
    d.subnet_id + d.manager_chain_id + packer::with_header(d.manager_address) + packer::u32_bytes(
        d.validators.len() as u32,
    )
}

/// Packing `head` followed by each validator's encoding with a length header,
/// in order: the first validator that cannot be encoded, or the first field that
/// takes the total beyond 1024 bytes, stops it with its error.
pub open spec fn conversion_fold(head: Seq<u8>, vs: Seq<InitialL1ValidatorView>) -> core::result::Result<
    Seq<u8>,
    Error,
>
    decreases vs.len(),
{
    if vs.len() == 0 {
        Ok(head)
    } else {
        match conversion_fold(head, vs.drop_last()) {
            Err(e) => Err(e),
            Ok(acc) => match initial_validator_encoding(vs.last()) {
                Err(e) => Err(e),
                Ok(vb) => if acc.len() + 4 + vb.len() > CONVERSION_DATA_MAX_SIZE {
                    Err(Error::InsufficientSpace { max_size: CONVERSION_DATA_MAX_SIZE })
                } else {
                    Ok(acc + packer::with_header(vb))
                },
            },
        }
    }
}

/// What `ConversionData::to_bytes` gives.
pub open spec fn conversion_encoding(d: ConversionDataView) -> core::result::Result<Seq<u8>, Error> {
    if 72 + d.manager_address.len() > CONVERSION_DATA_MAX_SIZE {
        Err(Error::InsufficientSpace { max_size: CONVERSION_DATA_MAX_SIZE })
    } else {
        conversion_fold(conversion_head(d), d.validators)
    }
}

/// What `ConversionData::conversion_id` gives: the digest of the encoding.
pub open spec fn conversion_id_of(d: ConversionDataView) -> core::result::Result<Seq<u8>, Error> {
    match conversion_encoding(d) {
        Ok(b) => Ok(hash::spec_sha256(b)),
        Err(e) => Err(e),
    }
}

/// The conversion data made of these parts, as plain values.
pub open spec fn conversion_view(
    subnet_id: Id,
    manager_chain_id: Id,
    manager_address: Seq<u8>,
    validators: Seq<InitialL1Validator>,
) -> ConversionDataView {
    ConversionDataView {
        subnet_id: subnet_id@,
        manager_chain_id: manager_chain_id@,
        manager_address,
        validators: validators.map_values(|v: InitialL1Validator| v@),
    }
}

/// The conversion ID of the conversion data made of these parts.
pub(crate) fn conversion_id_of_parts(
    subnet_id: &Id,
    manager_chain_id: &Id,
    manager_address: &Vec<u8>,
    validators: &Vec<InitialL1Validator>,
) -> (r: Result<Id>)
    ensures
        r matches Ok(id) ==> conversion_id_of(
            conversion_view(*subnet_id, *manager_chain_id, manager_address@, validators@),
        ) == Ok::<Seq<u8>, Error>(id@),
        r matches Err(e) ==> conversion_id_of(
            conversion_view(*subnet_id, *manager_chain_id, manager_address@, validators@),
        ) == Err::<Seq<u8>, Error>(e),
{
    let bytes = conversion_bytes_of_parts(subnet_id, manager_chain_id, manager_address, validators)?;
    let digest = hash::sha256(bytes.as_slice());
    let id = Id::from_slice(digest.as_slice());
    assert(id@ =~= digest@);
    Ok(id)
}

/// The encoding of the conversion data made of these parts.
pub(crate) fn conversion_bytes_of_parts(
    subnet_id: &Id,
    manager_chain_id: &Id,
    manager_address: &Vec<u8>,
    validators: &Vec<InitialL1Validator>,
) -> (r: Result<Vec<u8>>)
    ensures
        r matches Ok(b) ==> conversion_encoding(
            conversion_view(*subnet_id, *manager_chain_id, manager_address@, validators@),
        ) == Ok::<Seq<u8>, Error>(b@),
        r matches Err(e) ==> conversion_encoding(
            conversion_view(*subnet_id, *manager_chain_id, manager_address@, validators@),
        ) == Err::<Seq<u8>, Error>(e),
{
    let max = CONVERSION_DATA_MAX_SIZE;
    if manager_address.len() > max || 72 + manager_address.len() > max {
        return Err(Error::InsufficientSpace { max_size: max });
    }
    let mut buf: Vec<u8> = Vec::new();
    put_bytes(&mut buf, &subnet_id.0);
    put_bytes(&mut buf, &manager_chain_id.0);
    put_bytes_with_header(&mut buf, manager_address.as_slice());
    put_u32(&mut buf, validators.len() as u32);
    let ghost d = conversion_view(*subnet_id, *manager_chain_id, manager_address@, validators@);
    let ghost vs = d.validators;
    assert(buf@ =~= conversion_head(d));
    let mut i: usize = 0;
    while i < validators.len()
        invariant
            0 <= i <= validators@.len(),
            d == conversion_view(*subnet_id, *manager_chain_id, manager_address@, validators@),
            vs == d.validators,
            conversion_fold(conversion_head(d), vs.take(i as int)) == Ok::<Seq<u8>, Error>(buf@),
            buf@.len() <= CONVERSION_DATA_MAX_SIZE,
            72 + d.manager_address.len() <= CONVERSION_DATA_MAX_SIZE,
        decreases validators@.len() - i,
    {
        assert(vs[i as int] == validators@[i as int]@);
        let vb = match validators[i].to_bytes() {
            Ok(b) => b,
            Err(e) => {
                proof {
                    lemma_fold_step(conversion_head(d), vs, i as int, buf@);
                    lemma_fold_stops(conversion_head(d), vs, i as int + 1);
                }
                return Err(e);
            },
        };
        proof {
            lemma_fold_step(conversion_head(d), vs, i as int, buf@);
        }
        if vb.len() > CONVERSION_DATA_MAX_SIZE || buf.len() + 4 + vb.len() > CONVERSION_DATA_MAX_SIZE {
            proof {
                lemma_fold_stops(conversion_head(d), vs, i as int + 1);
            }
            return Err(Error::InsufficientSpace { max_size: CONVERSION_DATA_MAX_SIZE });
        }
        put_bytes_with_header(&mut buf, vb.as_slice());
        i = i + 1;
    }
    assert(vs.take(vs.len() as int) =~= vs);
    Ok(buf)
}

impl ConversionData {
    /// The conversion ID: the SHA-256 digest of the encoding.
    pub fn conversion_id(&self) -> (r: Result<Id>)
        ensures
            r matches Ok(id) ==> conversion_id_of(self@) == Ok::<Seq<u8>, Error>(id@),
            r matches Err(e) ==> conversion_id_of(self@) == Err::<Seq<u8>, Error>(e),
    {
        conversion_id_of_parts(
            &self.subnet_id,
            &self.manager_chain_id,
            &self.manager_address,
            &self.validators,
        )
    }

    /// Encodes the data: subnet ID, manager chain ID, manager address with a
    /// length header, the number of validators, and each validator's encoding
    /// with a length header; fails beyond 1024 bytes.
    pub fn to_bytes(&self) -> (r: Result<Vec<u8>>)
        ensures
            r matches Ok(b) ==> conversion_encoding(self@) == Ok::<Seq<u8>, Error>(b@),
            r matches Err(e) ==> conversion_encoding(self@) == Err::<Seq<u8>, Error>(e),
    {
        conversion_bytes_of_parts(
            &self.subnet_id,
            &self.manager_chain_id,
            &self.manager_address,
            &self.validators,
        )
    }
}

/// Packing one more validator after the first `i` extends the packing or stops it.
pub proof fn lemma_fold_step(head: Seq<u8>, vs: Seq<InitialL1ValidatorView>, i: int, acc: Seq<u8>)
    requires
        0 <= i < vs.len(),
        conversion_fold(head, vs.take(i)) == Ok::<Seq<u8>, Error>(acc),
    ensures
        conversion_fold(head, vs.take(i + 1)) == match initial_validator_encoding(vs[i]) {
            Err(e) => Err(e),
            Ok(vb) => if acc.len() + 4 + vb.len() > CONVERSION_DATA_MAX_SIZE {
                Err(Error::InsufficientSpace { max_size: CONVERSION_DATA_MAX_SIZE })
            } else {
                Ok(acc + packer::with_header(vb))
            },
        },
{
    assert(vs.take(i + 1).drop_last() =~= vs.take(i));
    assert(vs.take(i + 1).last() == vs[i]);
}

/// Once the packing of the first `k` validators fails, the packing of all of
/// them fails with the same error.
pub proof fn lemma_fold_stops(head: Seq<u8>, vs: Seq<InitialL1ValidatorView>, k: int)
    requires
        0 < k <= vs.len(),
        conversion_fold(head, vs.take(k)) is Err,
    ensures
        conversion_fold(head, vs) == conversion_fold(head, vs.take(k)),
    decreases vs.len() - k,
{
    if k < vs.len() {
        assert(vs.take(k + 1).drop_last() =~= vs.take(k));
        lemma_fold_stops(head, vs, k + 1);
    } else {
        assert(vs.take(k) =~= vs);
    }
}

/// The validators' encodings, each behind its length header.
pub open spec fn headed(vbs: Seq<Seq<u8>>) -> Seq<Seq<u8>> {
    vbs.map_values(|v: Seq<u8>| packer::with_header(v))
}

/// A prefix of a concatenation is no longer than the whole.
proof fn lemma_concat_prefix_len(s: Seq<Seq<u8>>, k: int)
    requires
        0 <= k <= s.len(),
    ensures
        packer::concat_all(s.take(k)).len() <= packer::concat_all(s).len(),
    decreases s.len() - k,
{
    if k < s.len() {
        lemma_concat_prefix_len(s, k + 1);
        assert(s.take(k + 1).drop_last() =~= s.take(k));
    } else {
        assert(s.take(k) =~= s);
    }
}

/// Packing the first `k` validators, when every validator encodes and the
/// whole fits, gives the head followed by their headed encodings.
proof fn lemma_fold_closed_prefix(
    head: Seq<u8>,
    vs: Seq<InitialL1ValidatorView>,
    vbs: Seq<Seq<u8>>,
    k: int,
)
    requires
        vbs.len() == vs.len(),
        forall|i: int|
            0 <= i < vs.len() ==> #[trigger] initial_validator_encoding(vs[i]) == Ok::<
                Seq<u8>,
                Error,
            >(vbs[i]),
        head.len() + packer::concat_all(headed(vbs)).len() <= CONVERSION_DATA_MAX_SIZE,
        0 <= k <= vs.len(),
    ensures
        conversion_fold(head, vs.take(k)) == Ok::<Seq<u8>, Error>(
            head + packer::concat_all(headed(vbs).take(k)),
        ),
    decreases k,
{
    let h = headed(vbs);
    if k == 0 {
        assert(vs.take(0) =~= Seq::<InitialL1ValidatorView>::empty());
        assert(h.take(0) =~= Seq::<Seq<u8>>::empty());
        assert(head + Seq::<u8>::empty() =~= head);
    } else {
        lemma_fold_closed_prefix(head, vs, vbs, k - 1);
        let acc = head + packer::concat_all(h.take(k - 1));
        lemma_fold_step(head, vs, k - 1, acc);
        assert(initial_validator_encoding(vs[k - 1]) == Ok::<Seq<u8>, Error>(vbs[k - 1]));
        assert(h.take(k).drop_last() =~= h.take(k - 1));
        assert(h.take(k).last() == packer::with_header(vbs[k - 1]));
        lemma_concat_prefix_len(h, k);
        assert(acc + packer::with_header(vbs[k - 1]) =~= head + packer::concat_all(h.take(k)));
    }
}

/// When every validator encodes and the whole is at most 1024 bytes, the
/// encoding of conversion data is its head (subnet ID, manager chain ID,
/// manager address with a length header, number of validators) followed by
/// each validator's encoding behind its length header.
pub proof fn lemma_conversion_encoding_closed(d: ConversionDataView, vbs: Seq<Seq<u8>>)
    requires
        d.subnet_id.len() == 32,
        d.manager_chain_id.len() == 32,
        vbs.len() == d.validators.len(),
        forall|i: int|
            0 <= i < d.validators.len() ==> #[trigger] initial_validator_encoding(d.validators[i])
                == Ok::<Seq<u8>, Error>(vbs[i]),
        72 + d.manager_address.len() + packer::concat_all(headed(vbs)).len()
            <= CONVERSION_DATA_MAX_SIZE,
    ensures
        conversion_encoding(d) == Ok::<Seq<u8>, Error>(
            conversion_head(d) + packer::concat_all(headed(vbs)),
        ),
{
    let head = conversion_head(d);
    assert(head.len() == 72 + d.manager_address.len());
    lemma_fold_closed_prefix(head, d.validators, vbs, d.validators.len() as int);
    assert(d.validators.take(d.validators.len() as int) =~= d.validators);
    assert(headed(vbs).take(vbs.len() as int) =~= headed(vbs));
}

} // verus!
