//! Account identities.

use vstd::prelude::*;

verus! {

/// A 32-byte account identity. The all-zero value stands for "no identity".
#[derive(Clone, Copy, Debug)]
pub struct Address {
    pub bytes: [u8; 32],
}

impl Address {
    /// True when every byte is zero.
    pub open spec fn is_unset(self) -> bool {
        forall|i: int| 0 <= i < 32 ==> self.bytes[i] == 0u8
    }

    /// The all-zero identity.
    pub open spec fn null() -> Address {
        choose|a: Address| a.is_unset()
    }

    /// The identity made of the given bytes.
    pub fn new(bytes: [u8; 32]) -> (a: Address)
        ensures
            a.bytes == bytes,
    {
        Address { bytes }
    }

    /// The all-zero identity.
    pub fn unset() -> (a: Address)
        ensures
            a.is_unset(),
            a == Address::null(),
    {
        let a = Address { bytes: [0u8; 32] };
        proof {
            lemma_unset_is_unique(a, Address::null());
        }
        a
    }

    /// The 32 bytes of this identity.
    pub fn to_bytes(&self) -> (b: [u8; 32])
        ensures
            b == self.bytes,
    {
        self.bytes
    }

    /// Whether this is the all-zero identity.
    pub fn is_default(&self) -> (r: bool)
        ensures
            r == self.is_unset(),
    {
        let mut i: usize = 0;
        while i < 32
            invariant
                i <= 32,
                forall|j: int| 0 <= j < i ==> self.bytes[j] == 0u8,
            decreases 32 - i,
        {
            if self.bytes[i] != 0 {
                return false;
            }
            i += 1;
        }
        true
    }

    /// Byte-wise equality of two identities.
    pub fn equals(&self, other: &Address) -> (r: bool)
        ensures
            r == (*self == *other),
    {
        let mut i: usize = 0;
        while i < 32
            invariant
                i <= 32,
                forall|j: int| 0 <= j < i ==> self.bytes[j] == other.bytes[j],
            decreases 32 - i,
        {
            if self.bytes[i] != other.bytes[i] {
                return false;
            }
            i += 1;
        }
        assert(self.bytes =~= other.bytes);
        true
    }
}

impl PartialEq for Address {
    fn eq(&self, other: &Address) -> (r: bool) {
        self.equals(other)
    }
}

impl Eq for Address {
}

impl vstd::std_specs::cmp::PartialEqSpecImpl for Address {
    open spec fn obeys_eq_spec() -> bool {
        true
    }

    open spec fn eq_spec(&self, other: &Address) -> bool {
        *self == *other
    }
}

/// Two unset identities are the same identity.
pub proof fn lemma_unset_is_unique(a: Address, b: Address)
    requires
        a.is_unset(),
        b.is_unset(),
    ensures
        a == b,
{
    assert(a.bytes =~= b.bytes);
}

} // verus!
