use vstd::prelude::*;

verus! {

/// An account identity: 32 opaque bytes, compared only for equality.
#[derive(Clone, Copy, Debug)]
pub struct AccountId(pub [u8; 32]);

/// A key of a `Table`: a value with an executable equality test that agrees
/// with equality of values.
pub trait Key: Copy + Sized {
    fn same(&self, other: &Self) -> (r: bool)
        ensures
            r == (*self == *other),
    ;
}

impl Key for AccountId {
    fn same(&self, other: &Self) -> (r: bool) {
        let mut i: usize = 0;
        while i < 32
            invariant
                0 <= i <= 32,
                forall|j: int| 0 <= j < i ==> self.0[j] == other.0[j],
            decreases 32 - i,
        {
            if self.0[i] != other.0[i] {
                return false;
            }
            i = i + 1;
        }
        proof {
            broadcast use vstd::array::group_array_axioms;
            assert(self.0 =~= other.0);
        }
        true
    }
}

/// The key of an allowance: the account that grants it and the one that may spend it.
#[derive(Clone, Copy, Debug)]
pub struct AllowanceKey {
    pub owner: AccountId,
    pub spender: AccountId,
}

impl Key for AllowanceKey {
    fn same(&self, other: &Self) -> (r: bool) {
        self.owner.same(&other.owner) && self.spender.same(&other.spender)
    }
}

} // verus!
