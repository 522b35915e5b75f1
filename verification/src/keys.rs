//! Ledger identities as plain byte values.
//!
//! Identities on the source ledger are 32-byte account keys; addresses on the
//! destination ledger are 20 bytes.  The handlers only ever compare them for
//! equality, so they are carried as fixed-size byte arrays and compared by a
//! verified loop.

use vstd::prelude::*;

verus! {

broadcast use vstd::array::group_array_axioms;

/// A 32-byte account key on the source ledger.
pub type Key32 = [u8; 32];

/// A 20-byte address on the destination ledger.
pub type Addr20 = [u8; 20];

/// Byte-for-byte equality of two account keys.
pub fn key_eq(a: &Key32, b: &Key32) -> (r: bool)
    ensures
        r == (a@ == b@),
{
    let mut i: usize = 0;
    while i < 32
        invariant
            i <= 32,
            forall|j: int| 0 <= j < i ==> a@[j] == b@[j],
        decreases 32 - i,
    {
        if a[i] != b[i] {
            assert(a@ != b@);
            return false;
        }
        i += 1;
    }
    proof {
        assert(a@ =~= b@);
    }
    true
}

/// Byte-for-byte equality of two destination addresses.
pub fn addr_eq(a: &Addr20, b: &Addr20) -> (r: bool)
    ensures
        r == (a@ == b@),
{
    let mut i: usize = 0;
    while i < 20
        invariant
            i <= 20,
            forall|j: int| 0 <= j < i ==> a@[j] == b@[j],
        decreases 20 - i,
    {
        if a[i] != b[i] {
            assert(a@ != b@);
            return false;
        }
        i += 1;
    }
    proof {
        assert(a@ =~= b@);
    }
    true
}

/// The all-zero key, which no funded account uses.
pub open spec fn is_zero_key(a: Key32) -> bool {
    a@ == Seq::<u8>::new(32, |i: int| 0u8)
}

/// Whether a key is the all-zero key.
pub fn key_is_zero(a: &Key32) -> (r: bool)
    ensures
        r == is_zero_key(*a),
{
    let mut i: usize = 0;
    while i < 32
        invariant
            i <= 32,
            forall|j: int| 0 <= j < i ==> a@[j] == 0u8,
        decreases 32 - i,
    {
        if a[i] != 0 {
            assert(a@ != Seq::<u8>::new(32, |k: int| 0u8));
            return false;
        }
        i += 1;
    }
    proof {
        assert(a@ =~= Seq::<u8>::new(32, |k: int| 0u8));
    }
    true
}

} // verus!
