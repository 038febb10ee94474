use vstd::prelude::*;

verus! {

broadcast use vstd::array::group_array_axioms;

/// Length of a Stellar strkey (`G...` accounts and `C...` contracts).
pub const STRKEY_LEN: usize = 56;

/// A Stellar account or contract address, held as the ASCII bytes of its strkey.
#[derive(Clone, Copy, Debug, PartialEq, Eq)]
pub struct Address {
    pub strkey: [u8; 56],
}

impl Address {
    /// Builds an address from the 56 bytes of a strkey.
    pub fn from_strkey(bytes: &[u8]) -> (r: Address)
        requires
            bytes@.len() == STRKEY_LEN,
        ensures
            r.strkey@ == bytes@,
    {
        let mut key = [0u8; 56];
        let mut i: usize = 0;
        while i < STRKEY_LEN
            invariant
                i <= STRKEY_LEN,
                bytes@.len() == STRKEY_LEN,
                forall|j: int| 0 <= j < i ==> key[j] == bytes@[j],
            decreases STRKEY_LEN - i,
        {
            key[i] = bytes[i];
            i = i + 1;
        }
        assert(key@ =~= bytes@);
        Address { strkey: key }
    }

    /// Whether two addresses are the same.
    pub fn same(&self, other: &Address) -> (r: bool)
        ensures
            r == (*self == *other),
    {
        let mut i: usize = 0;
        while i < STRKEY_LEN
            invariant
                i <= STRKEY_LEN,
                forall|j: int| 0 <= j < i ==> self.strkey[j] == other.strkey[j],
            decreases STRKEY_LEN - i,
        {
            if self.strkey[i] != other.strkey[i] {
                return false;
            }
            i = i + 1;
        }
        assert(self.strkey =~= other.strkey);
        true
    }
}

/// Whether two 32-byte values are equal.
pub fn bytes32_eq(a: &[u8; 32], b: &[u8; 32]) -> (r: bool)
    ensures
        r == (*a == *b),
{
    let mut i: usize = 0;
    while i < 32
        invariant
            i <= 32,
            forall|j: int| 0 <= j < i ==> a[j] == b[j],
        decreases 32 - i,
    {
        if a[i] != b[i] {
            return false;
        }
        i = i + 1;
    }
    assert(*a =~= *b);
    true
}

/// The first 32 bytes of `bytes`, padded with zeros when it is shorter.
pub open spec fn prefix32(bytes: Seq<u8>) -> Seq<u8> {
    Seq::new(32, |i: int| if i < bytes.len() { bytes[i] } else { 0u8 })
}

/// Copies the first 32 bytes of `bytes` into an array, padding with zeros.
pub fn copy_prefix32(bytes: &[u8]) -> (r: [u8; 32])
    ensures
        r@ == prefix32(bytes@),
{
    let len = bytes.len();
    let mut arr = [0u8; 32];
    let mut i: usize = 0;
    while i < 32
        invariant
            i <= 32,
            len == bytes@.len(),
            forall|j: int| 0 <= j < i ==> arr[j] == prefix32(bytes@)[j],
            forall|j: int| i <= j < 32 ==> arr[j] == 0u8,
        decreases 32 - i,
    {
        if i < len {
            arr[i] = bytes[i];
        }
        i = i + 1;
    }
    assert(arr@ =~= prefix32(bytes@));
    arr
}

} // verus!
