//! Block hashes and out-points, the identifiers that some violations carry.

use vstd::prelude::*;

verus! {

/// Whether two hashes hold the same bytes.
pub fn hash_eq(a: &[u8; 32], b: &[u8; 32]) -> (same: bool)
    ensures
        same == (*a == *b),
{
    let mut i: usize = 0;
    while i < 32
        invariant
            i <= 32,
            forall|j: int| 0 <= j < i ==> a[j] == b[j],
        decreases 32 - i,
    {
        if a[i] != b[i] {
            return false;
        }
        i += 1;
    }
    assert(*a =~= *b);
    true
}

/// A reference to one output of an earlier transaction.
#[derive(Clone, Copy, Debug)]
pub struct OutPoint {
    /// The hash of the transaction that made the output.
    pub tx_hash: [u8; 32],
    /// The position of the output in that transaction.
    pub index: u32,
}

impl PartialEq for OutPoint {
    fn eq(&self, other: &Self) -> (same: bool) {
        hash_eq(&self.tx_hash, &other.tx_hash) && self.index == other.index
    }
}

impl Eq for OutPoint {

}

impl vstd::std_specs::cmp::PartialEqSpecImpl for OutPoint {
    open spec fn obeys_eq_spec() -> bool {
        true
    }

    open spec fn eq_spec(&self, other: &Self) -> bool {
        *self == *other
    }
}

} // verus!
