//! secp256k1fx inputs and credentials.
use vstd::prelude::*;

use crate::codec;
use crate::packer::{self, put_bytes, put_u32};

verus! {

/// Indices of the signatures that authorize an operation (secp256k1fx.Input).
#[derive(Debug, Clone, PartialEq, Eq, Default)]
pub struct Input {
    /// Signature indices.
    pub sig_indices: Vec<u32>,
}

/// Signatures that authorize a transaction (secp256k1fx.Credential).
#[derive(Debug, Clone, PartialEq, Eq, Default)]
pub struct Credential {
    /// 65-byte recoverable signatures.
    pub signatures: Vec<Vec<u8>>,
}

/// The `u32`s of `s`, big-endian, one after another.
pub open spec fn u32s_bytes(s: Seq<u32>) -> Seq<u8>
    decreases s.len(),
{
    if s.len() == 0 {
        Seq::empty()
    } else {
        u32s_bytes(s.drop_last()) + packer::u32_bytes(s.last())
    }
}

/// The encoding of an input: its type ID, the number of indices, the indices.
pub open spec fn input_bytes(sig_indices: Seq<u32>) -> Seq<u8> {
    packer::u32_bytes(10) + packer::u32_bytes(sig_indices.len() as u32) + u32s_bytes(sig_indices)
}

/// The signatures of a credential as plain values.
pub open spec fn credential_view(c: Credential) -> Seq<Seq<u8>> {
    c.signatures@.map_values(|s: Vec<u8>| s@)
}

/// The encoding of a credential: its type ID, the number of signatures, the
/// signatures with no length headers.
pub open spec fn credential_bytes(sigs: Seq<Seq<u8>>) -> Seq<u8> {
    packer::u32_bytes(9) + packer::u32_bytes(sigs.len() as u32) + packer::concat_all(sigs)
}

/// The encodings of the credentials one after another.
pub open spec fn credentials_body(creds: Seq<Credential>) -> Seq<u8>
    decreases creds.len(),
{
    if creds.len() == 0 {
        Seq::empty()
    } else {
        credentials_body(creds.drop_last()) + credential_bytes(credential_view(creds.last()))
    }
}

/// The encoding of a list of credentials: their number, then each credential.
pub open spec fn credentials_bytes(creds: Seq<Credential>) -> Seq<u8> {
    packer::u32_bytes(creds.len() as u32) + credentials_body(creds)
}

impl Input {
    /// The type ID that the P-Chain codec registers for secp256k1fx.Input.
    pub fn type_id() -> (id: u32)
        ensures
            codec::p_type_id_of("secp256k1fx.Input"@) == Some(id),
            id == 10,
    {
        let found = codec::p_type_id("secp256k1fx.Input");
        proof {
            codec::lemma_secp256k1fx_input_registered();
        }
        match found {
            Some(id) => id,
            None => 0,
        }
    }

    /// Appends the input's encoding to `buf`.
    pub fn pack(&self, buf: &mut Vec<u8>)
        ensures
            final(buf)@ == old(buf)@ + input_bytes(self.sig_indices@),
    {
        put_u32(buf, Self::type_id());
        put_u32(buf, self.sig_indices.len() as u32);
        let ghost start = buf@;
        let mut i: usize = 0;
        while i < self.sig_indices.len()
            invariant
                0 <= i <= self.sig_indices@.len(),
                buf@ == start + u32s_bytes(self.sig_indices@.take(i as int)),
            decreases self.sig_indices@.len() - i,
        {
            put_u32(buf, self.sig_indices[i]);
            assert(self.sig_indices@.take(i as int + 1).drop_last() =~= self.sig_indices@.take(
                i as int,
            ));
            i = i + 1;
        }
        assert(self.sig_indices@.take(self.sig_indices@.len() as int) =~= self.sig_indices@);
    }
}

impl Credential {
    /// The type ID that the P-Chain codec registers for secp256k1fx.Credential.
    pub fn type_id() -> (id: u32)
        ensures
            codec::p_type_id_of("secp256k1fx.Credential"@) == Some(id),
            id == 9,
    {
        let found = codec::p_type_id("secp256k1fx.Credential");
        proof {
            codec::lemma_secp256k1fx_credential_registered();
        }
        match found {
            Some(id) => id,
            None => 0,
        }
    }

    /// Appends the credential's encoding to `buf`.
    pub fn pack(&self, buf: &mut Vec<u8>)
        ensures
            final(buf)@ == old(buf)@ + credential_bytes(credential_view(*self)),
    {
        put_u32(buf, Self::type_id());
        put_u32(buf, self.signatures.len() as u32);
        let ghost start = buf@;
        let ghost sigs = credential_view(*self);
        let mut i: usize = 0;
        while i < self.signatures.len()
            invariant
                0 <= i <= self.signatures@.len(),
                sigs == credential_view(*self),
                buf@ == start + packer::concat_all(sigs.take(i as int)),
            decreases self.signatures@.len() - i,
        {
            put_bytes(buf, self.signatures[i].as_slice());
            assert(sigs.take(i as int + 1).drop_last() =~= sigs.take(i as int));
            i = i + 1;
        }
        assert(sigs.take(sigs.len() as int) =~= sigs);
    }
}

/// Appends the encoding of a list of credentials to `buf`.
pub fn pack_credentials(creds: &Vec<Credential>, buf: &mut Vec<u8>)
    ensures
        final(buf)@ == old(buf)@ + credentials_bytes(creds@),
{
    put_u32(buf, creds.len() as u32);
    let ghost start = buf@;
    let mut i: usize = 0;
    while i < creds.len()
        invariant
            0 <= i <= creds@.len(),
            buf@ == start + credentials_body(creds@.take(i as int)),
        decreases creds@.len() - i,
    {
        creds[i].pack(buf);
        assert(creds@.take(i as int + 1).drop_last() =~= creds@.take(i as int));
        i = i + 1;
    }
    assert(creds@.take(creds@.len() as int) =~= creds@);
}

} // verus!
