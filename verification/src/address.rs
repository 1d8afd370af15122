use vstd::prelude::*;

verus! {

/// A 20-byte account identity, as the host hands it to a contract call.
///
/// Two identities are equal exactly when all twenty bytes agree.
#[derive(Clone, Copy, Debug, Eq, Hash)]
pub struct Address {
    pub bytes: [u8; 20],
}

impl PartialEq for Address {
    fn eq(&self, other: &Address) -> (r: bool) {
        let mut i: usize = 0;
        while i < 20
            invariant
                i <= 20,
                forall|j: int| 0 <= j < i ==> self.bytes[j] == other.bytes[j],
            decreases 20 - i,
        {
            if self.bytes[i] != other.bytes[i] {
                return false;
            }
            i += 1;
        }
        assert(self.bytes =~= other.bytes);
        true
    }
}

impl vstd::std_specs::cmp::PartialEqSpecImpl for Address {
    open spec fn obeys_eq_spec() -> bool {
        true
    }

    open spec fn eq_spec(&self, other: &Address) -> bool {
        *self == *other
    }
}

impl Address {
    /// Whether every byte of the identity is zero. Exactly one identity is.
    pub open spec fn is_zero(self) -> bool {
        forall|i: int| 0 <= i < 20 ==> self.bytes[i] == 0
    }

    /// The identity whose bytes are all zero: what fresh storage holds.
    pub fn zero() -> (r: Address)
        ensures
            r.is_zero(),
    {
        Address { bytes: [0u8; 20] }
    }

    /// The identity with the given bytes.
    pub fn from_bytes(bytes: [u8; 20]) -> (r: Address)
        ensures
            r.bytes == bytes,
    {
        Address { bytes }
    }

    /// The bytes of the identity.
    pub fn into_bytes(self) -> (r: [u8; 20])
        ensures
            r == self.bytes,
    {
        self.bytes
    }
}

} // verus!
