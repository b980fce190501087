//! Warp messages: unsigned messages and messages signed by a validator set.
//!
//! An unsigned message is encoded as codec version (`u16`, 0), network ID
//! (`u32`), source chain ID (32 bytes) and the payload with a `u32` length
//! header. A signed message appends the signer bit set with a `u64` length
//! header and the aggregated BLS signature with no header.
use vstd::prelude::*;
use vstd::slice::slice_to_vec;

use crate::errors::{Error, Result};
use crate::hash;
use crate::ids::{self, Id};
use crate::key::bls::public_key::{self, Key as BlsKey};
use crate::key::bls::signature::{self, Sig};
use crate::packer::{self, get_bytes, get_u16, get_u32, get_u64, put_bytes, put_bytes_with_header, put_bytes_with_header_u64, put_u16, put_u32};

verus! {

/// The size (in bytes) of the aggregated BLS signature of a Warp message.
pub const SIGNATURE_LEN: usize = 96;

// ---------------------------------------------------------------------------
// Encodings
// ---------------------------------------------------------------------------

/// The encoding of an unsigned message with the given fields.
pub open spec fn unsigned_message_bytes(network_id: u32, source_chain_id: Seq<u8>, payload: Seq<u8>) -> Seq<u8> {
    packer::u16_bytes(0) + packer::u32_bytes(network_id) + source_chain_id + packer::with_header(payload)
}

/// What reading an unsigned message at the start of `b` gives: its network ID,
/// source chain ID and payload, and the offset just after it; or the error.
#[verifier::opaque]
pub open spec fn parse_unsigned_prefix(b: Seq<u8>) -> core::result::Result<(u32, Seq<u8>, Seq<u8>, int), Error> {
    if b.len() < 2 {
        Err(Error::UnexpectedEnd)
    } else if packer::u16_at(b, 0) != 0 {
        Err(Error::UnsupportedCodecVersion(packer::u16_at(b, 0)))
    } else if b.len() < 42 {
        Err(Error::UnexpectedEnd)
    } else {
        let n = packer::u32_at(b, 38) as int;
        if b.len() < 42 + n {
            Err(Error::UnexpectedEnd)
        } else {
            Ok((packer::u32_at(b, 2), b.subrange(6, 38), b.subrange(42, 42 + n), 42 + n))
        }
    }
}

/// The fields of a signed message as plain values.
pub ghost struct MessageView {
    pub network_id: u32,
    pub source_chain_id: Seq<u8>,
    pub payload: Seq<u8>,
    pub signature_bit_set: Seq<u8>,
    pub signature: Seq<u8>,
}

/// What reading the bit set (with a `u64` length header) and the signature at
/// offset `o` of `b` gives. The signature is the next 96 bytes, or all that
/// remain when fewer do.
#[verifier::opaque]
pub open spec fn parse_signature_fields(b: Seq<u8>, o: int) -> core::result::Result<(Seq<u8>, Seq<u8>), Error> {
    if b.len() < o + 8 {
        Err(Error::UnexpectedEnd)
    } else {
        let n = packer::u64_at(b, o) as int;
        let o2 = o + 8 + n;
        if b.len() < o2 {
            Err(Error::UnexpectedEnd)
        } else {
            let k = if b.len() - o2 >= SIGNATURE_LEN { SIGNATURE_LEN as int } else { b.len() - o2 };
            Ok((b.subrange(o + 8, o2), b.subrange(o2, o2 + k)))
        }
    }
}

/// What decoding `b` as a signed message gives.
pub open spec fn parse_message(b: Seq<u8>) -> core::result::Result<MessageView, Error> {
    match parse_unsigned_prefix(b) {
        Err(e) => Err(e),
        Ok((network_id, source_chain_id, payload, o)) => match parse_signature_fields(b, o) {
            Err(e) => Err(e),
            Ok((signature_bit_set, signature)) => Ok(MessageView {
                network_id,
                source_chain_id,
                payload,
                signature_bit_set,
                signature,
            }),
        },
    }
}

/// The encoding of a signed message, given the encoding of its unsigned message.
pub open spec fn message_bytes(unsigned: Seq<u8>, signature_bit_set: Seq<u8>, signature: Seq<u8>) -> Seq<u8> {
    unsigned + packer::with_header_u64(signature_bit_set) + signature
}

/// Reads an unsigned message at the start of `b`.
fn read_unsigned_prefix(b: &[u8]) -> (r: Result<(u32, Id, Vec<u8>, usize)>)
    ensures
        r matches Ok((nid, cid, p, o)) ==> parse_unsigned_prefix(b@) == Ok::<(u32, Seq<u8>, Seq<u8>, int), Error>((nid, cid@, p@, o as int)),
        r matches Err(e) ==> parse_unsigned_prefix(b@) == Err::<(u32, Seq<u8>, Seq<u8>, int), Error>(e),
        r matches Ok((_, _, _, o)) ==> o <= b@.len(),
{
    proof {
        reveal(parse_unsigned_prefix);
    }
    let version = match get_u16(b, 0) {
        Some(v) => v,
        None => return Err(Error::UnexpectedEnd),
    };
    if version != 0 {
        return Err(Error::UnsupportedCodecVersion(version));
    }
    let network_id = match get_u32(b, 2) {
        Some(v) => v,
        None => return Err(Error::UnexpectedEnd),
    };
    let chain = match get_bytes(b, 6, ids::LEN) {
        Some(v) => v,
        None => return Err(Error::UnexpectedEnd),
    };
    let source_chain_id = Id::from_slice(chain.as_slice());
    assert(source_chain_id@ =~= chain@);
    let n = match get_u32(b, 38) {
        Some(v) => v as usize,
        None => return Err(Error::UnexpectedEnd),
    };
    let payload = match get_bytes(b, 42, n) {
        Some(v) => v,
        None => return Err(Error::UnexpectedEnd),
    };
    Ok((network_id, source_chain_id, payload, 42 + n))
}

/// Decoding the encoding of an unsigned message gives its fields back, when
/// the payload's length fits the 32-bit header.
pub proof fn lemma_unsigned_message_roundtrip(network_id: u32, source_chain_id: Seq<u8>, payload: Seq<u8>, rest: Seq<u8>)
    requires
        source_chain_id.len() == 32,
        payload.len() <= u32::MAX,
    ensures
        parse_unsigned_prefix(unsigned_message_bytes(network_id, source_chain_id, payload) + rest)
            == Ok::<(u32, Seq<u8>, Seq<u8>, int), Error>((network_id, source_chain_id, payload, 42 + payload.len() as int)),
{
    reveal(parse_unsigned_prefix);
    let b = unsigned_message_bytes(network_id, source_chain_id, payload) + rest;
    let n = payload.len() as int;
    assert(b.subrange(0, 2) =~= packer::u16_bytes(0));
    packer::lemma_u16_at(b, 0, 0);
    assert(b.subrange(2, 6) =~= packer::u32_bytes(network_id));
    packer::lemma_u32_at(b, 2, network_id);
    assert(b.subrange(38, 42) =~= packer::u32_bytes(n as u32));
    packer::lemma_u32_at(b, 38, n as u32);
    assert(b.subrange(6, 38) =~= source_chain_id);
    assert(b.subrange(42, 42 + n) =~= payload);
}

/// Different fields give different encodings: the encoding of an unsigned
/// message determines its network ID, source chain ID and payload.
pub proof fn lemma_unsigned_message_bytes_injective(
    n1: u32, c1: Seq<u8>, p1: Seq<u8>,
    n2: u32, c2: Seq<u8>, p2: Seq<u8>,
)
    requires
        c1.len() == 32,
        c2.len() == 32,
        p1.len() <= u32::MAX,
        p2.len() <= u32::MAX,
        unsigned_message_bytes(n1, c1, p1) == unsigned_message_bytes(n2, c2, p2),
    ensures
        n1 == n2,
        c1 == c2,
        p1 == p2,
{
    lemma_unsigned_message_roundtrip(n1, c1, p1, Seq::empty());
    lemma_unsigned_message_roundtrip(n2, c2, p2, Seq::empty());
    assert(unsigned_message_bytes(n1, c1, p1) + Seq::<u8>::empty() =~= unsigned_message_bytes(n1, c1, p1));
    assert(unsigned_message_bytes(n2, c2, p2) + Seq::<u8>::empty() =~= unsigned_message_bytes(n2, c2, p2));
}

/// Where the fields after the unsigned message stand in a signed message's encoding.
proof fn lemma_message_tail(u: Seq<u8>, signature_bit_set: Seq<u8>, signature: Seq<u8>)
    requires
        signature_bit_set.len() <= u64::MAX,
    ensures
        signature.len() <= SIGNATURE_LEN ==> parse_signature_fields(
            message_bytes(u, signature_bit_set, signature),
            u.len() as int,
        ) == Ok::<(Seq<u8>, Seq<u8>), Error>((signature_bit_set, signature)),
{
    reveal(parse_signature_fields);
    let n = signature_bit_set.len() as int;
    let hdr = packer::u64_bytes(n as u64);
    let rest = packer::with_header_u64(signature_bit_set) + signature;
    let b = message_bytes(u, signature_bit_set, signature);
    let o = u.len() as int;
    assert(b =~= u + rest);
    assert(rest.subrange(0, 8) =~= hdr);
    assert(rest.subrange(8, 8 + n) =~= signature_bit_set);
    assert(rest.subrange(8 + n, rest.len() as int) =~= signature);
    packer::lemma_subrange_of_concat(u, rest, 0, 8);
    packer::lemma_subrange_of_concat(u, rest, 8, 8 + n);
    packer::lemma_subrange_of_concat(u, rest, 8 + n, rest.len() as int);
    assert(b.subrange(0, o) =~= u);
    packer::lemma_u64_at(b, o, n as u64);
}

/// The unsigned message at the start of a signed message's encoding reads back.
proof fn lemma_message_prefix(
    network_id: u32,
    source_chain_id: Seq<u8>,
    payload: Seq<u8>,
    signature_bit_set: Seq<u8>,
    signature: Seq<u8>,
)
    requires
        source_chain_id.len() == 32,
        payload.len() <= u32::MAX,
    ensures
        parse_unsigned_prefix(
            message_bytes(
                unsigned_message_bytes(network_id, source_chain_id, payload),
                signature_bit_set,
                signature,
            ),
        ) == Ok::<(u32, Seq<u8>, Seq<u8>, int), Error>(
            (network_id, source_chain_id, payload, 42 + payload.len() as int),
        ),
{
    let u = unsigned_message_bytes(network_id, source_chain_id, payload);
    let rest = packer::with_header_u64(signature_bit_set) + signature;
    assert(message_bytes(u, signature_bit_set, signature) =~= u + rest);
    lemma_unsigned_message_roundtrip(network_id, source_chain_id, payload, rest);
}

/// Decoding the encoding of a signed message gives its fields back, when the
/// payload's length fits the 32-bit header and the signature is at most 96 bytes.
pub proof fn lemma_message_roundtrip(
    network_id: u32,
    source_chain_id: Seq<u8>,
    payload: Seq<u8>,
    signature_bit_set: Seq<u8>,
    signature: Seq<u8>,
)
    requires
        source_chain_id.len() == 32,
        payload.len() <= u32::MAX,
        signature_bit_set.len() <= u64::MAX,
        signature.len() <= SIGNATURE_LEN,
    ensures
        parse_message(message_bytes(unsigned_message_bytes(network_id, source_chain_id, payload), signature_bit_set, signature))
            == Ok::<MessageView, Error>(MessageView { network_id, source_chain_id, payload, signature_bit_set, signature }),
{
    let u = unsigned_message_bytes(network_id, source_chain_id, payload);
    lemma_message_prefix(network_id, source_chain_id, payload, signature_bit_set, signature);
    lemma_message_tail(u, signature_bit_set, signature);
    assert(u.len() == 42 + payload.len());
}

// ---------------------------------------------------------------------------
// UnsignedMessage
// ---------------------------------------------------------------------------

/// An unsigned Warp message.
///
/// The encoding and the ID are cached: once computed (or, for the encoding,
/// once decoded), later calls return the cached values.
#[derive(Debug, Clone, PartialEq, Eq, Default)]
pub struct UnsignedMessage {
    /// Network ID where this message originated.
    pub network_id: u32,
    /// Chain ID where this message originated.
    pub source_chain_id: Id,
    /// Arbitrary payload data.
    pub payload: Vec<u8>,
    /// Cached message ID, set by `id`.
    pub id: Option<Id>,
    /// Cached encoding, set by `to_bytes`, `id` and `from_bytes`.
    pub bytes: Option<Vec<u8>>,
}

impl UnsignedMessage {
    /// The cached encoding, if any.
    pub open spec fn cached_bytes(&self) -> Option<Seq<u8>> {
        match self.bytes {
            Some(b) => Some(b@),
            None => None,
        }
    }

    /// The cached ID, if any.
    pub open spec fn cached_id(&self) -> Option<Seq<u8>> {
        match self.id {
            Some(i) => Some(i@),
            None => None,
        }
    }

    /// What `to_bytes` returns: the cached encoding, else the encoding of the fields.
    pub open spec fn encoding(&self) -> Seq<u8> {
        match self.cached_bytes() {
            Some(b) => b,
            None => unsigned_message_bytes(self.network_id, self.source_chain_id@, self.payload@),
        }
    }

    /// What `id` returns: the cached ID, else the SHA-256 digest of `encoding()`.
    pub open spec fn message_id(&self) -> Seq<u8> {
        match self.cached_id() {
            Some(i) => i,
            None => hash::spec_sha256(self.encoding()),
        }
    }

    /// Creates a message with nothing cached.
    pub fn new(network_id: u32, source_chain_id: Id, payload: Vec<u8>) -> (m: Self)
        ensures
            m.network_id == network_id,
            m.source_chain_id == source_chain_id,
            m.payload@ == payload@,
            m.cached_bytes() is None,
            m.cached_id() is None,
            m.encoding() == unsigned_message_bytes(network_id, source_chain_id@, payload@),
            m.message_id() == hash::spec_sha256(m.encoding()),
    {
        Self { network_id, source_chain_id, payload, id: None, bytes: None }
    }

    /// The message ID: the SHA-256 digest of the encoding, cached after the first call.
    pub fn id(&mut self) -> (r: Result<Id>)
        ensures
            r matches Ok(i) && i@ == old(self).message_id(),
            final(self).network_id == old(self).network_id,
            final(self).source_chain_id == old(self).source_chain_id,
            final(self).payload@ == old(self).payload@,
            final(self).encoding() == old(self).encoding(),
            final(self).cached_id() == Some(old(self).message_id()),
    {
        if let Some(id) = self.id {
            return Ok(id);
        }
        let bytes = self.to_bytes()?;
        let digest = hash::sha256(bytes.as_slice());
        let id = Id::from_slice(digest.as_slice());
        assert(id@ =~= digest@);
        self.id = Some(id);
        Ok(id)
    }

    /// Encodes the message (codec version, network ID, chain ID, payload with a
    /// `u32` length header), or returns the cached encoding; caches the result.
    pub fn to_bytes(&mut self) -> (r: Result<Vec<u8>>)
        ensures
            r matches Ok(v) && v@ == old(self).encoding(),
            final(self).network_id == old(self).network_id,
            final(self).source_chain_id == old(self).source_chain_id,
            final(self).payload@ == old(self).payload@,
            final(self).cached_bytes() == Some(old(self).encoding()),
            final(self).cached_id() == old(self).cached_id(),
    {
        if let Some(b) = &self.bytes {
            return Ok(slice_to_vec(b.as_slice()));
        }
        let mut buf: Vec<u8> = Vec::new();
        put_u16(&mut buf, 0);
        put_u32(&mut buf, self.network_id);
        put_bytes(&mut buf, &self.source_chain_id.0);
        put_bytes_with_header(&mut buf, self.payload.as_slice());
        assert(buf@ =~= unsigned_message_bytes(self.network_id, self.source_chain_id@, self.payload@));
        self.bytes = Some(slice_to_vec(buf.as_slice()));
        Ok(buf)
    }

    /// Decodes a message; the whole input (including any bytes after the
    /// payload) becomes the cached encoding.
    pub fn from_bytes(bytes: &[u8]) -> (r: Result<Self>)
        ensures
            r matches Ok(m) ==> parse_unsigned_prefix(bytes@) matches Ok((nid, cid, p, _))
                && m.network_id == nid && m.source_chain_id@ == cid && m.payload@ == p
                && m.cached_bytes() == Some(bytes@) && m.cached_id() is None,
            r matches Err(e) ==> parse_unsigned_prefix(bytes@) == Err::<(u32, Seq<u8>, Seq<u8>, int), Error>(e),
    {
        let (network_id, source_chain_id, payload, _) = read_unsigned_prefix(bytes)?;
        Ok(Self { network_id, source_chain_id, payload, id: None, bytes: Some(slice_to_vec(bytes)) })
    }
}

/// Messages that cache nothing and have the same fields have the same ID.
pub proof fn lemma_message_id_of_fields(a: UnsignedMessage, b: UnsignedMessage)
    requires
        a.cached_bytes() is None,
        a.cached_id() is None,
        b.cached_bytes() is None,
        b.cached_id() is None,
        a.network_id == b.network_id,
        a.source_chain_id == b.source_chain_id,
        a.payload@ == b.payload@,
    ensures
        a.message_id() == b.message_id(),
{
}

/// Once `id` has cached a message's ID, the message keeps that ID: later
/// calls give the same one.
pub proof fn lemma_message_id_kept(before: UnsignedMessage, after: UnsignedMessage)
    requires
        after.cached_id() == Some(before.message_id()),
    ensures
        after.message_id() == before.message_id(),
{
}

// ---------------------------------------------------------------------------
// Message
// ---------------------------------------------------------------------------

/// A Warp message signed by validators with an aggregated BLS signature.
#[derive(Debug, Clone, PartialEq, Eq, Default)]
pub struct Message {
    /// The unsigned message.
    pub unsigned_message: UnsignedMessage,
    /// Bit `i` (bit `i % 8` of byte `i / 8`) is set when validator `i` signed.
    pub signature_bit_set: Vec<u8>,
    /// Aggregated BLS signature of the signers (96 bytes).
    pub signature: Vec<u8>,
}

/// Whether bit `index` of the bit set is set.
pub open spec fn bit_is_set(bit_set: Seq<u8>, index: int) -> bool {
    index / 8 < bit_set.len() && (bit_set[index / 8] & (1u8 << ((index % 8) as u8))) != 0
}

/// `x` capped at `u64::MAX`.
pub open spec fn capped(x: int) -> int {
    if x > u64::MAX {
        u64::MAX as int
    } else {
        x
    }
}

/// The total weight of the validators.
pub open spec fn weight_sum(vs: Seq<(BlsKey, u64)>) -> int
    decreases vs.len(),
{
    if vs.len() == 0 {
        0
    } else {
        weight_sum(vs.drop_last()) + vs.last().1
    }
}

/// The total weight of the validators whose bit is set.
pub open spec fn signed_weight_sum(vs: Seq<(BlsKey, u64)>, bit_set: Seq<u8>) -> int
    decreases vs.len(),
{
    if vs.len() == 0 {
        0
    } else {
        signed_weight_sum(vs.drop_last(), bit_set) + if bit_is_set(bit_set, vs.len() - 1) {
            vs.last().1 as int
        } else {
            0
        }
    }
}

/// The public keys of the validators whose bit is set, in order.
pub open spec fn signer_keys(vs: Seq<(BlsKey, u64)>, bit_set: Seq<u8>) -> Seq<Seq<u8>>
    decreases vs.len(),
{
    if vs.len() == 0 {
        Seq::empty()
    } else if bit_is_set(bit_set, vs.len() - 1) {
        signer_keys(vs.drop_last(), bit_set).push(vs.last().0@)
    } else {
        signer_keys(vs.drop_last(), bit_set)
    }
}

/// The stake threshold: more than two thirds of the total weight signed, with
/// weights and products capped at `u64::MAX`.
pub open spec fn quorum_reached(vs: Seq<(BlsKey, u64)>, bit_set: Seq<u8>) -> bool {
    capped(3 * capped(signed_weight_sum(vs, bit_set))) > capped(2 * capped(weight_sum(vs)))
}

/// What verifying a message with the given bit set, signature and unsigned
/// encoding against the validators gives.
pub open spec fn verify_outcome(vs: Seq<(BlsKey, u64)>, bit_set: Seq<u8>, signature: Seq<u8>, msg: Seq<u8>) -> core::result::Result<bool, Error> {
    if vs.len() == 0 {
        Err(Error::NoValidators)
    } else if !quorum_reached(vs, bit_set) {
        Ok(false)
    } else if signer_keys(vs, bit_set).len() == 0 {
        Ok(false)
    } else {
        match public_key::spec_bls_aggregate(signer_keys(vs, bit_set)) {
            None => Err(Error::AggregationFailed),
            Some(agg) => if signature::from_bytes_outcome(signature) is Err {
                Err(Error::InvalidSignature)
            } else {
                Ok(public_key::spec_bls_verify(agg, msg, signature, public_key::signature_dst()))
            },
        }
    }
}

/// `a + b` capped at `u64::MAX`.
fn add_capped(a: u64, b: u64) -> (r: u64)
    ensures
        r == capped(a + b),
{
    a.saturating_add(b)
}

/// `a * b` capped at `u64::MAX`.
fn mul_capped(a: u64, b: u64) -> (r: u64)
    ensures
        r == capped(a * b),
{
    match a.checked_mul(b) {
        Some(p) => p,
        None => u64::MAX,
    }
}

impl Message {
    /// Creates a signed message.
    pub fn new(unsigned_message: UnsignedMessage, signature_bit_set: Vec<u8>, signature: Vec<u8>) -> (m: Self)
        ensures
            m.unsigned_message == unsigned_message,
            m.signature_bit_set@ == signature_bit_set@,
            m.signature@ == signature@,
    {
        Self { unsigned_message, signature_bit_set, signature }
    }

    /// Encodes the message: the unsigned message's encoding, the bit set with a
    /// `u64` length header, and the signature with no header.
    pub fn to_bytes(&mut self) -> (r: Result<Vec<u8>>)
        ensures
            r matches Ok(v) && v@ == message_bytes(
                old(self).unsigned_message.encoding(),
                old(self).signature_bit_set@,
                old(self).signature@,
            ),
            final(self).unsigned_message.network_id == old(self).unsigned_message.network_id,
            final(self).unsigned_message.source_chain_id == old(self).unsigned_message.source_chain_id,
            final(self).unsigned_message.payload@ == old(self).unsigned_message.payload@,
            final(self).unsigned_message.encoding() == old(self).unsigned_message.encoding(),
            final(self).unsigned_message.cached_id() == old(self).unsigned_message.cached_id(),
            final(self).signature_bit_set@ == old(self).signature_bit_set@,
            final(self).signature@ == old(self).signature@,
    {
        let unsigned_bytes = self.unsigned_message.to_bytes()?;
        let mut buf: Vec<u8> = Vec::new();
        put_bytes(&mut buf, unsigned_bytes.as_slice());
        put_bytes_with_header_u64(&mut buf, self.signature_bit_set.as_slice());
        put_bytes(&mut buf, self.signature.as_slice());
        assert(buf@ =~= message_bytes(unsigned_bytes@, self.signature_bit_set@, self.signature@));
        Ok(buf)
    }

    /// Decodes a message. The signature is the next 96 bytes, or all that
    /// remain when fewer do; the unsigned message caches nothing.
    pub fn from_bytes(bytes: &[u8]) -> (r: Result<Self>)
        ensures
            r matches Ok(m) ==> parse_message(bytes@) == Ok::<MessageView, Error>(MessageView {
                network_id: m.unsigned_message.network_id,
                source_chain_id: m.unsigned_message.source_chain_id@,
                payload: m.unsigned_message.payload@,
                signature_bit_set: m.signature_bit_set@,
                signature: m.signature@,
            }) && m.unsigned_message.cached_bytes() is None && m.unsigned_message.cached_id() is None,
            r matches Err(e) ==> parse_message(bytes@) == Err::<MessageView, Error>(e),
    {
        proof {
            reveal(parse_signature_fields);
        }
        let (network_id, source_chain_id, payload, o) = read_unsigned_prefix(bytes)?;
        let unsigned_message = UnsignedMessage::new(network_id, source_chain_id, payload);
        let n = match get_u64(bytes, o) {
            Some(v) => v,
            None => return Err(Error::UnexpectedEnd),
        };
        let start = o + 8;
        if ((bytes.len() - start) as u64) < n {
            return Err(Error::UnexpectedEnd);
        }
        let n = n as usize;
        let signature_bit_set = match get_bytes(bytes, start, n) {
            Some(v) => v,
            None => return Err(Error::UnexpectedEnd),
        };
        let o2 = start + n;
        let k = if bytes.len() - o2 >= SIGNATURE_LEN { SIGNATURE_LEN } else { bytes.len() - o2 };
        let signature = match get_bytes(bytes, o2, k) {
            Some(v) => v,
            None => return Err(Error::UnexpectedEnd),
        };
        Ok(Self { unsigned_message, signature_bit_set, signature })
    }

    /// Whether validator `index` signed (its bit is set in the bit set).
    pub fn is_validator_signed(&self, index: usize) -> (b: bool)
        ensures
            b == bit_is_set(self.signature_bit_set@, index as int),
    {
        let byte_index = index / 8;
        let bit_index = index % 8;
        if byte_index >= self.signature_bit_set.len() {
            return false;
        }
        (self.signature_bit_set[byte_index] & (1u8 << (bit_index as u8))) != 0
    }

    /// Verifies the aggregated signature against the validators, given as
    /// (public key, weight) in bit-set order. More than two thirds of the total
    /// weight must have signed; then the signers' keys are aggregated and the
    /// signature is checked over the unsigned message's encoding.
    pub fn verify(&mut self, validators: &[(BlsKey, u64)]) -> (r: Result<bool>)
        ensures
            r == verify_outcome(
                validators@,
                old(self).signature_bit_set@,
                old(self).signature@,
                old(self).unsigned_message.encoding(),
            ),
            final(self).unsigned_message.network_id == old(self).unsigned_message.network_id,
            final(self).unsigned_message.source_chain_id == old(self).unsigned_message.source_chain_id,
            final(self).unsigned_message.payload@ == old(self).unsigned_message.payload@,
            final(self).unsigned_message.encoding() == old(self).unsigned_message.encoding(),
            final(self).unsigned_message.cached_id() == old(self).unsigned_message.cached_id(),
            final(self).signature_bit_set@ == old(self).signature_bit_set@,
            final(self).signature@ == old(self).signature@,
            // A message signed by its only validator verifies, when the
            // validator's weight is positive and below half of `u64::MAX`.
            validators@.len() == 1 && bit_is_set(old(self).signature_bit_set@, 0) && 0
                < validators@[0].1 && 2 * validators@[0].1 < u64::MAX
                && public_key::spec_bls_key_validate(validators@[0].0@)
                && signature::from_bytes_outcome(old(self).signature@) is Ok
                && public_key::spec_bls_verify(
                validators@[0].0@,
                old(self).unsigned_message.encoding(),
                old(self).signature@,
                public_key::signature_dst(),
            ) ==> r == Ok::<bool, Error>(true),
    {
        if validators.len() == 0 {
            return Err(Error::NoValidators);
        }
        let ghost vs = validators@;
        let mut total_weight: u64 = 0;
        let mut signing_weight: u64 = 0;
        let mut signers: Vec<BlsKey> = Vec::new();
        let mut i: usize = 0;
        while i < validators.len()
            invariant
                vs == validators@,
                0 <= i <= vs.len(),
                total_weight == capped(weight_sum(vs.take(i as int))),
                signing_weight == capped(signed_weight_sum(vs.take(i as int), self.signature_bit_set@)),
                signers@.map_values(|k: BlsKey| k@) == signer_keys(vs.take(i as int), self.signature_bit_set@),
            decreases vs.len() - i,
        {
            let ghost prefix = vs.take(i as int);
            let ghost next = vs.take(i as int + 1);
            assert(next.drop_last() =~= prefix);
            assert(next.last() == vs[i as int]);
            let w = validators[i].1;
            total_weight = add_capped(total_weight, w);
            if self.is_validator_signed(i) {
                signing_weight = add_capped(signing_weight, w);
                let ghost before = signers@.map_values(|k: BlsKey| k@);
                signers.push(validators[i].0);
                assert(signers@.map_values(|k: BlsKey| k@) =~= before.push(vs[i as int].0@));
            }
            i = i + 1;
        }
        assert(vs.take(vs.len() as int) =~= vs);
        proof {
            let bs = self.signature_bit_set@;
            if vs.len() == 1 && bit_is_set(bs, 0) {
                assert(vs.drop_last() =~= Seq::<(BlsKey, u64)>::empty());
                assert(weight_sum(vs.drop_last()) == 0);
                assert(signed_weight_sum(vs.drop_last(), bs) == 0);
                assert(signer_keys(vs.drop_last(), bs) =~= Seq::<Seq<u8>>::empty());
                assert(vs.last() == vs[0]);
                assert(weight_sum(vs) == vs[0].1);
                assert(signed_weight_sum(vs, bs) == vs[0].1);
                assert(signer_keys(vs, bs) =~= seq![vs[0].0@]);
                assert(signers@.map_values(|k: BlsKey| k@)[0] == signers@[0]@);
            }
        }
        if mul_capped(signing_weight, 3) <= mul_capped(total_weight, 2) {
            return Ok(false);
        }
        if signers.len() == 0 {
            return Ok(false);
        }
        let agg = public_key::aggregate(&signers)?;
        let sig = Sig::from_bytes(self.signature.as_slice())?;
        let msg_bytes = self.unsigned_message.to_bytes()?;
        Ok(agg.verify(msg_bytes.as_slice(), &sig))
    }
}

} // verus!
