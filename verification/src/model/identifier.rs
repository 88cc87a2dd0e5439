//! Identifiers of identities, documents and contracts.

use vstd::prelude::*;

verus! {

/// A 32-byte identifier.
pub type Identifier = [u8; 32];

/// Whether both identifiers are the same.
pub fn same_id(a: &Identifier, b: &Identifier) -> (r: bool)
    ensures
        r == (*a == *b),
{
    let mut i: usize = 0;
    while i < 32
        invariant
            i <= 32,
            forall|j: int| 0 <= j < i ==> #[trigger] a@[j] == b@[j],
        decreases 32 - i,
    {
        if a[i] != b[i] {
            return false;
        }
        i = i + 1;
    }
    assert(*a =~= *b);
    true
}

} // verus!
