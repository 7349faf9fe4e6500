//! 32-byte hashes: block hashes, script hashes, storage keys and values.

use vstd::prelude::*;

verus! {

/// A 32-byte hash value, the key and value type of the rollup state.
#[derive(Clone, Copy, Debug, PartialEq, Eq)]
pub struct H256 {
    pub b: [u8; 32],
}

impl View for H256 {
    type V = Seq<u8>;

    open spec fn view(&self) -> Seq<u8> {
        self.b@
    }
}

/// Length of the short address prefix of a script hash.
pub const SHORT_ADDRESS_LEN: usize = 20;

impl H256 {
    pub open spec fn zero_spec() -> Seq<u8> {
        Seq::new(32, |i: int| 0u8)
    }

    /// The all-zero hash, the absent value of the state tree.
    pub fn zero() -> (r: H256)
        ensures
            r@ == H256::zero_spec(),
    {
        let b = [0u8; 32];
        proof {
            assert(b@ =~= H256::zero_spec());
        }
        H256 { b }
    }

    pub fn eq(&self, other: &H256) -> (r: bool)
        ensures
            r <==> self@ == other@,
    {
        let mut i: usize = 0;
        while i < 32
            invariant
                i <= 32,
                forall|j: int| 0 <= j < i ==> self@[j] == other@[j],
            decreases 32 - i,
        {
            if self.b[i] != other.b[i] {
                return false;
            }
            i += 1;
        }
        proof {
            assert(self@ =~= other@);
        }
        true
    }

    /// The short address of a script hash: its first 20 bytes.
    pub fn short_address(&self) -> (r: Vec<u8>)
        ensures
            r@ == self@.subrange(0, SHORT_ADDRESS_LEN as int),
    {
        let mut r: Vec<u8> = Vec::new();
        let mut i: usize = 0;
        while i < SHORT_ADDRESS_LEN
            invariant
                i <= SHORT_ADDRESS_LEN,
                r@ =~= self@.subrange(0, i as int),
            decreases SHORT_ADDRESS_LEN - i,
        {
            r.push(self.b[i]);
            i += 1;
        }
        proof {
            assert(r@ =~= self@.subrange(0, SHORT_ADDRESS_LEN as int));
        }
        r
    }

    /// Builds a hash from exactly 32 bytes.
    pub fn from_bytes(bytes: &Vec<u8>) -> (r: H256)
        requires
            bytes@.len() == 32,
        ensures
            r@ == bytes@,
    {
        let mut b = [0u8; 32];
        let mut i: usize = 0;
        while i < 32
            invariant
                i <= 32,
                bytes@.len() == 32,
                b@.len() == 32,
                forall|j: int| 0 <= j < i ==> b@[j] == bytes@[j],
            decreases 32 - i,
        {
            b[i] = bytes[i];
            i += 1;
        }
        proof {
            assert(b@ =~= bytes@);
        }
        H256 { b }
    }
}

/// Byte-wise equality on byte vectors, usable where contracts compare views.
pub fn bytes_eq(a: &Vec<u8>, b: &Vec<u8>) -> (r: bool)
    ensures
        r <==> a@ == b@,
{
    if a.len() != b.len() {
        return false;
    }
    let mut i: usize = 0;
    while i < a.len()
        invariant
            i <= a@.len(),
            a@.len() == b@.len(),
            forall|j: int| 0 <= j < i ==> a@[j] == b@[j],
        decreases a@.len() - i,
    {
        if a[i] != b[i] {
            return false;
        }
        i += 1;
    }
    proof {
        assert(a@ =~= b@);
    }
    true
}

} // verus!
