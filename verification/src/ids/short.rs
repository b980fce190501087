//! 20-byte short identifiers (addresses).
use vstd::prelude::*;

verus! {

/// The size (in bytes) of a short `Id`.
pub const LEN: usize = 20;

/// A 20-byte short identifier (an address).
#[derive(Debug, Clone, Copy, PartialEq, Eq, Hash, Default, PartialOrd, Ord)]
pub struct Id(pub [u8; LEN]);

impl View for Id {
    type V = Seq<u8>;

    open spec fn view(&self) -> Seq<u8> {
        self.0@
    }
}

impl Id {
    /// The all-zero identifier.
    pub fn empty() -> (id: Self)
        ensures
            id@ == Seq::new(LEN as nat, |i: int| 0u8),
    {
        Id([0u8; LEN])
    }

    /// Builds an identifier from at most 20 bytes, padding with zeros at the end.
    pub fn from_slice(d: &[u8]) -> (id: Self)
        requires
            d@.len() <= LEN,
        ensures
            id@ == crate::ids::zero_padded(d@, LEN as nat),
    {
        let mut a = [0u8; LEN];
        let mut i: usize = 0;
        while i < d.len()
            invariant
                d@.len() <= LEN,
                0 <= i <= d@.len(),
                a@.len() == LEN,
                forall|j: int| 0 <= j < i ==> a@[j] == d@[j],
                forall|j: int| i <= j < LEN ==> a@[j] == 0u8,
            decreases d@.len() - i,
        {
            a[i] = d[i];
            i = i + 1;
        }
        let id = Id(a);
        assert(id@ =~= crate::ids::zero_padded(d@, LEN as nat));
        id
    }

    /// True when every byte is zero.
    pub fn is_empty(&self) -> (b: bool)
        ensures
            b <==> (forall|i: int| 0 <= i < LEN ==> self@[i] == 0u8),
    {
        let mut i: usize = 0;
        while i < LEN
            invariant
                0 <= i <= LEN,
                self@.len() == LEN,
                forall|j: int| 0 <= j < i ==> self@[j] == 0u8,
            decreases LEN - i,
        {
            if self.0[i] != 0 {
                return false;
            }
            i = i + 1;
        }
        true
    }

    /// The identifier's bytes.
    pub fn to_vec(&self) -> (v: Vec<u8>)
        ensures
            v@ == self@,
    {
        let mut v: Vec<u8> = Vec::new();
        let mut i: usize = 0;
        while i < LEN
            invariant
                0 <= i <= LEN,
                self@.len() == LEN,
                v@ == self@.take(i as int),
            decreases LEN - i,
        {
            v.push(self.0[i]);
            assert(v@ =~= self@.take(i as int + 1));
            i = i + 1;
        }
        assert(self@.take(LEN as int) =~= self@);
        v
    }
}

} // verus!
