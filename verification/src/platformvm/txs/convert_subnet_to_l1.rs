//! ConvertSubnetToL1Tx: converts a permissioned Subnet into an L1, with its
//! initial validators and the chain and address that manage its validator set.
use vstd::prelude::*;

use crate::codec;
use crate::errors::{Error, Result};
use crate::ids::Id;
use crate::key::secp256k1::txs::{input_bytes, Credential, Input};
use crate::packer::{self, put_bytes, put_bytes_with_header, put_u32, put_u64};
use crate::platformvm::l1::validator::{self, InitialL1Validator, InitialL1ValidatorView};
use crate::txs;

verus! {

/// Converts a permissioned Subnet into an L1.
#[derive(Debug, Clone, PartialEq, Eq, Default)]
pub struct Tx {
    /// Base transaction fields.
    pub base_tx: txs::Tx,
    /// The subnet being converted.
    pub subnet_id: Id,
    /// The chain that manages the L1's validator set.
    pub chain_id: Id,
    /// The address on the manager chain that controls validator operations.
    pub address: Vec<u8>,
    /// The initial validators of the L1.
    pub validators: Vec<InitialL1Validator>,
    /// Authorization by the subnet's owner.
    pub subnet_auth: Input,
    /// Credentials.
    pub creds: Vec<Credential>,
}

/// How an initial validator is encoded inside the transaction: node ID with a
/// length header, weight, a zero balance, the BLS public key, 96 zero bytes in
/// place of the proof of possession, and both owners.
pub open spec fn validator_in_tx_bytes(v: InitialL1ValidatorView) -> Seq<u8> {
    packer::with_header(v.node_id) + packer::u64_bytes(v.weight) + packer::u64_bytes(0)
        + v.bls_public_key + Seq::new(96, |i: int| 0u8) + validator::owner_bytes(
        v.remaining_balance_owner,
    ) + validator::owner_bytes(v.deactivation_owner)
}

/// The encodings of the validators one after another.
pub open spec fn validators_in_tx_bytes(vs: Seq<InitialL1ValidatorView>) -> Seq<u8>
    decreases vs.len(),
{
    if vs.len() == 0 {
        Seq::empty()
    } else {
        validators_in_tx_bytes(vs.drop_last()) + validator_in_tx_bytes(vs.last())
    }
}

/// Appending a validator appends its encoding: the validators are encoded in
/// list order, each after all those before it.
pub proof fn lemma_validators_in_tx_push(vs: Seq<InitialL1ValidatorView>, v: InitialL1ValidatorView)
    ensures
        validators_in_tx_bytes(vs.push(v)) == validators_in_tx_bytes(vs) + validator_in_tx_bytes(v),
{
    assert(vs.push(v).drop_last() =~= vs);
}

/// The encoding of two lists one after the other is the encoding of the first
/// followed by that of the second.
pub proof fn lemma_validators_in_tx_concat(s: Seq<InitialL1ValidatorView>, t: Seq<InitialL1ValidatorView>)
    ensures
        validators_in_tx_bytes(s + t) == validators_in_tx_bytes(s) + validators_in_tx_bytes(t),
    decreases t.len(),
{
    if t.len() == 0 {
        assert(s + t =~= s);
        assert(validators_in_tx_bytes(s) + Seq::<u8>::empty() =~= validators_in_tx_bytes(s));
    } else {
        let t0 = t.drop_last();
        lemma_validators_in_tx_concat(s, t0);
        assert((s + t).drop_last() =~= s + t0);
        assert((s + t).last() == t.last());
        assert(validators_in_tx_bytes(s) + validators_in_tx_bytes(t0) + validator_in_tx_bytes(
            t.last(),
        ) =~= validators_in_tx_bytes(s) + (validators_in_tx_bytes(t0) + validator_in_tx_bytes(
            t.last(),
        )));
    }
}

/// Validator `i`'s encoding stands right after the encodings of validators
/// `0 .. i`, in list order.
pub proof fn lemma_validator_in_tx_position(vs: Seq<InitialL1ValidatorView>, i: int)
    requires
        0 <= i < vs.len(),
    ensures
        ({
            let all = validators_in_tx_bytes(vs);
            let off = validators_in_tx_bytes(vs.take(i)).len() as int;
            all.subrange(off, off + validator_in_tx_bytes(vs[i]).len()) == validator_in_tx_bytes(
                vs[i],
            )
        }),
{
    let a = vs.take(i);
    let rest = vs.skip(i + 1);
    assert(vs =~= a.push(vs[i]) + rest);
    lemma_validators_in_tx_concat(a.push(vs[i]), rest);
    lemma_validators_in_tx_push(a, vs[i]);
    let x = validators_in_tx_bytes(a);
    let y = validator_in_tx_bytes(vs[i]);
    let all = validators_in_tx_bytes(vs);
    assert(all == x + y + validators_in_tx_bytes(rest));
    assert(all.subrange(x.len() as int, x.len() + y.len() as int) =~= y);
}

/// The encoding of the transaction without credentials: the base transaction
/// (codec version 0, type ID 31), subnet ID, chain ID, address with a length
/// header, the number of validators and each validator, and the subnet
/// authorization.
pub open spec fn unsigned_tx_bytes(tx: Tx) -> Seq<u8> {
    txs::base_tx_bytes(tx.base_tx, 0, 31) + tx.subnet_id@ + tx.chain_id@ + packer::with_header(
        tx.address@,
    ) + packer::u32_bytes(tx.validators@.len() as u32) + validators_in_tx_bytes(
        tx.validators@.map_values(|v: InitialL1Validator| v@),
    ) + input_bytes(tx.subnet_auth.sig_indices@)
}

/// Appends an initial validator's encoding inside the transaction.
fn pack_validator(v: &InitialL1Validator, buf: &mut Vec<u8>)
    ensures
        final(buf)@ == old(buf)@ + validator_in_tx_bytes(v@),
{
    put_bytes_with_header(buf, &v.node_id.0);
    put_u64(buf, v.weight);
    put_u64(buf, 0);
    put_bytes(buf, v.bls_public_key.as_slice());
    put_bytes(buf, &[0u8; 96]);
    v.remaining_balance_owner.pack(buf);
    v.deactivation_owner.pack(buf);
    assert(buf@ =~= old(buf)@ + validator_in_tx_bytes(v@));
}

impl Tx {
    /// Creates the transaction, with no authorization indices and no credentials.
    pub fn new(base_tx: txs::Tx, subnet_id: Id, chain_id: Id, address: Vec<u8>, validators: Vec<InitialL1Validator>) -> (tx: Self)
        ensures
            tx.base_tx == base_tx,
            tx.subnet_id == subnet_id,
            tx.chain_id == chain_id,
            tx.address@ == address@,
            tx.validators@ == validators@,
            tx.subnet_auth.sig_indices@.len() == 0,
            tx.creds@.len() == 0,
    {
        Self {
            base_tx,
            subnet_id,
            chain_id,
            address,
            validators,
            subnet_auth: Input { sig_indices: Vec::new() },
            creds: Vec::new(),
        }
    }

    /// The transaction ID: the one that signing recorded, else all zeros.
    pub fn tx_id(&self) -> (id: Id)
        ensures
            id@ == txs::tx_id_of(self.base_tx),
    {
        self.base_tx.id()
    }

    /// The name under which the P-Chain codec registers this transaction type.
    pub fn tx_type_name() -> (name: String)
        ensures
            name@ == "platformvm.ConvertSubnetToL1Tx"@,
    {
        "platformvm.ConvertSubnetToL1Tx".to_owned()
    }

    /// The type ID that the P-Chain codec registers for `tx_type_name()`.
    pub fn type_id() -> (id: u32)
        ensures
            codec::p_type_id_of("platformvm.ConvertSubnetToL1Tx"@) == Some(id),
            id == 31,
    {
        let name = Self::tx_type_name();
        let found = codec::p_type_id(name.as_str());
        proof {
            codec::lemma_convert_subnet_to_l1_tx_registered();
        }
        match found {
            Some(id) => id,
            None => 0,
        }
    }

    /// The encoding without credentials, whose digest the signers sign.
    pub fn unsigned_bytes(&self) -> (b: Vec<u8>)
        ensures
            b@ == unsigned_tx_bytes(*self),
    {
        let mut buf = self.base_tx.pack(codec::VERSION, Self::type_id());
        put_bytes(&mut buf, &self.subnet_id.0);
        put_bytes(&mut buf, &self.chain_id.0);
        put_bytes_with_header(&mut buf, self.address.as_slice());
        put_u32(&mut buf, self.validators.len() as u32);
        let ghost head = buf@;
        let ghost vs = self.validators@.map_values(|v: InitialL1Validator| v@);
        let mut i: usize = 0;
        while i < self.validators.len()
            invariant
                0 <= i <= self.validators@.len(),
                vs == self.validators@.map_values(|v: InitialL1Validator| v@),
                buf@ == head + validators_in_tx_bytes(vs.take(i as int)),
            decreases self.validators@.len() - i,
        {
            pack_validator(&self.validators[i], &mut buf);
            assert(vs.take(i as int + 1).drop_last() =~= vs.take(i as int));
            assert(vs.take(i as int + 1).last() == self.validators@[i as int]@);
            i = i + 1;
        }
        assert(vs.take(vs.len() as int) =~= vs);
        self.subnet_auth.pack(&mut buf);
        buf
    }

    /// The digest that the signers sign: the SHA-256 digest of the encoding
    /// without credentials.
    pub fn signing_digest(&self) -> (d: Vec<u8>)
        ensures
            d@ == crate::hash::spec_sha256(unsigned_tx_bytes(*self)),
    {
        let unsigned = self.unsigned_bytes();
        crate::hash::sha256(unsigned.as_slice())
    }

    /// Records the signers' credentials: they replace the transaction's, and
    /// the metadata becomes the ID and the encodings, with and without them,
    /// of this transaction.
    pub fn record_signatures(&mut self, creds: Vec<Credential>)
        ensures
            final(self).creds@ == creds@,
            final(self).base_tx.metadata matches Some(m) && m.tx_bytes_with_no_signature@
                == unsigned_tx_bytes(*old(self)) && m.tx_bytes_with_signatures@
                == txs::signed_tx_bytes(unsigned_tx_bytes(*old(self)), creds@) && m.id@
                == crate::hash::spec_sha256(
                txs::signed_tx_bytes(unsigned_tx_bytes(*old(self)), creds@),
            ),
            final(self).base_tx.network_id == old(self).base_tx.network_id,
            final(self).base_tx.blockchain_id == old(self).base_tx.blockchain_id,
            final(self).base_tx.memo == old(self).base_tx.memo,
            final(self).subnet_id == old(self).subnet_id,
            final(self).chain_id == old(self).chain_id,
            final(self).address == old(self).address,
            final(self).validators == old(self).validators,
            final(self).subnet_auth == old(self).subnet_auth,
    {
        let unsigned = self.unsigned_bytes();
        let metadata = txs::signed_metadata(unsigned, &creds);
        self.base_tx.metadata = Some(metadata);
        self.creds = creds;
    }

    /// The conversion ID of this conversion: the digest of the conversion data
    /// made of the subnet ID, the manager chain ID and address, and the
    /// initial validators.
    pub fn conversion_id(&self) -> (r: Result<Id>)
        ensures
            r matches Ok(id) ==> validator::conversion_id_of(
                validator::conversion_view(self.subnet_id, self.chain_id, self.address@, self.validators@),
            ) == Ok::<Seq<u8>, Error>(id@),
            r matches Err(e) ==> validator::conversion_id_of(
                validator::conversion_view(self.subnet_id, self.chain_id, self.address@, self.validators@),
            ) == Err::<Seq<u8>, Error>(e),
    {
        validator::conversion_id_of_parts(&self.subnet_id, &self.chain_id, &self.address, &self.validators)
    }
}

} // verus!
