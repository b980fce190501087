//! The fields that every P-Chain transaction shares.
use vstd::prelude::*;

use crate::hash;
use crate::ids::{self, Id};
use crate::key::secp256k1::txs::{credentials_bytes, pack_credentials, Credential};
use crate::packer::{self, put_bytes, put_bytes_with_header, put_u16, put_u32};

verus! {

/// What signing records of a transaction: its ID and its encodings.
#[derive(Debug, Clone, PartialEq, Eq, Default)]
pub struct Metadata {
    /// The transaction ID (the SHA-256 digest of the signed encoding).
    pub id: Id,
    /// The encoding without credentials.
    pub tx_bytes_with_no_signature: Vec<u8>,
    /// The encoding with credentials.
    pub tx_bytes_with_signatures: Vec<u8>,
}

/// The base transaction: network, blockchain, memo, and what signing recorded.
#[derive(Debug, Clone, PartialEq, Eq, Default)]
pub struct Tx {
    /// The network the transaction is for.
    pub network_id: u32,
    /// The blockchain the transaction is for.
    pub blockchain_id: Id,
    /// Arbitrary data.
    pub memo: Option<Vec<u8>>,
    /// Set once the transaction is signed.
    pub metadata: Option<Metadata>,
}

/// The ID of a transaction whose base is `base`: the signed ID where signing
/// recorded one, else all zeros.
pub open spec fn tx_id_of(base: Tx) -> Seq<u8> {
    match base.metadata {
        Some(m) => m.id@,
        None => Seq::new(ids::LEN as nat, |i: int| 0u8),
    }
}

/// The encoding of a memo: with a length header, or an empty length when absent.
pub open spec fn memo_bytes(memo: Option<Vec<u8>>) -> Seq<u8> {
    match memo {
        Some(m) => packer::with_header(m@),
        None => packer::u32_bytes(0),
    }
}

/// The encoding of the base transaction `b` behind the codec version and the
/// transaction's type ID: network ID, blockchain ID, no outputs, no inputs
/// (each an empty count), and the memo.
pub open spec fn base_tx_bytes(b: Tx, codec_version: u16, type_id: u32) -> Seq<u8> {
    packer::u16_bytes(codec_version) + packer::u32_bytes(type_id) + packer::u32_bytes(b.network_id)
        + b.blockchain_id@ + packer::u32_bytes(0) + packer::u32_bytes(0) + memo_bytes(b.memo)
}

/// The encoding with credentials of a transaction whose encoding without
/// them is `unsigned`.
pub open spec fn signed_tx_bytes(unsigned: Seq<u8>, creds: Seq<Credential>) -> Seq<u8> {
    unsigned + credentials_bytes(creds)
}

/// What signing records: the ID (the digest of the signed encoding) and both
/// encodings.
pub fn signed_metadata(unsigned: Vec<u8>, creds: &Vec<Credential>) -> (m: Metadata)
    ensures
        m.tx_bytes_with_no_signature@ == unsigned@,
        m.tx_bytes_with_signatures@ == signed_tx_bytes(unsigned@, creds@),
        m.id@ == hash::spec_sha256(signed_tx_bytes(unsigned@, creds@)),
{
    let mut signed: Vec<u8> = Vec::new();
    put_bytes(&mut signed, unsigned.as_slice());
    pack_credentials(creds, &mut signed);
    let digest = hash::sha256(signed.as_slice());
    let id = Id::from_slice(digest.as_slice());
    assert(id@ =~= digest@);
    Metadata { id, tx_bytes_with_no_signature: unsigned, tx_bytes_with_signatures: signed }
}

impl Tx {
    /// Encodes the base transaction behind the codec version and the type ID.
    pub fn pack(&self, codec_version: u16, type_id: u32) -> (b: Vec<u8>)
        ensures
            b@ == base_tx_bytes(*self, codec_version, type_id),
    {
        let mut buf: Vec<u8> = Vec::new();
        put_u16(&mut buf, codec_version);
        put_u32(&mut buf, type_id);
        put_u32(&mut buf, self.network_id);
        put_bytes(&mut buf, &self.blockchain_id.0);
        put_u32(&mut buf, 0);
        put_u32(&mut buf, 0);
        match &self.memo {
            Some(m) => put_bytes_with_header(&mut buf, m.as_slice()),
            None => put_u32(&mut buf, 0),
        }
        assert(buf@ =~= base_tx_bytes(*self, codec_version, type_id));
        buf
    }

    /// The transaction ID: the signed ID where signing recorded one, else all zeros.
    pub fn id(&self) -> (id: Id)
        ensures
            id@ == tx_id_of(*self),
    {
        match &self.metadata {
            Some(m) => m.id,
            None => Id::empty(),
        }
    }
}

} // verus!
