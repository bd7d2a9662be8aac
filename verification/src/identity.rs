//! Identity handles for the parties of an escrow.

use vstd::prelude::*;

verus! {

/// An opaque 32-byte identity handle: a ledger account that can be a
/// buyer, a seller or an arbiter. The engine never interprets the
/// bytes; it only compares handles for exact equality.
#[derive(Clone, Copy, Debug)]
pub struct AccountId {
    pub bytes: [u8; 32],
}

/// Byte-for-byte equality of two 32-byte values.
pub fn bytes_equal(a: &[u8; 32], b: &[u8; 32]) -> (r: bool)
    ensures
        r == (a@ == b@),
{
    let mut i: usize = 0;
    while i < 32
        invariant
            0 <= i <= 32,
            forall|k: int| 0 <= k < i ==> a@[k] == b@[k],
        decreases 32 - i,
    {
        if a[i] != b[i] {
            return false;
        }
        i += 1;
    }
    proof {
        assert(a@ =~= b@);
    }
    true
}

impl AccountId {
    /// Exact equality of two identity handles.
    pub fn matches(&self, other: &AccountId) -> (r: bool)
        ensures
            r == (self == other),
    {
        let r = bytes_equal(&self.bytes, &other.bytes);
        proof {
            if self.bytes@ == other.bytes@ {
                assert(self.bytes =~= other.bytes);
            }
        }
        r
    }
}

} // verus!
