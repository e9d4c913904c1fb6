use vstd::prelude::*;

verus! {

/// Identities (authority, buyer, provider, challenger) are opaque
/// 32-byte public keys. The core never interprets them; it only
/// compares them for equality when checking that the authenticated
/// caller matches the role a record expects.
pub fn key_eq(a: &[u8; 32], b: &[u8; 32]) -> (r: bool)
    ensures
        r == (a@ == b@),
{
    let mut i: usize = 0;
    while i < 32
        invariant
            0 <= i <= 32,
            forall|j: int| 0 <= j < i ==> a@[j] == b@[j],
        decreases 32 - i,
    {
        if a[i] != b[i] {
            assert(a@ != b@);
            return false;
        }
        i += 1;
    }
    assert(a@ =~= b@);
    true
}

} // verus!
