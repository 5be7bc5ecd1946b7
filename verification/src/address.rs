use vstd::prelude::*;

verus! {

/// A 32-byte account address (a public key or a program-derived address).
pub type Address = [u8; 32];

/// Two addresses are equal exactly when their bytes are.
pub proof fn lemma_address_view_eq(a: Address, b: Address)
    ensures
        (a@ == b@) == (a == b),
{
    broadcast use vstd::array::group_array_axioms;
    if a@ == b@ {
        assert(a =~= b);
    }
}

/// Compares two addresses byte by byte.
pub fn same_address(a: &Address, b: &Address) -> (r: bool)
    ensures
        r == (*a == *b),
{
    broadcast use vstd::array::group_array_axioms;
    let mut i: usize = 0;
    while i < 32
        invariant
            i <= 32,
            forall|j: int| 0 <= j < i ==> a[j] == b[j],
        decreases 32 - i,
    {
        if a[i] != b[i] {
            return false;
        }
        i = i + 1;
    }
    assert(*a =~= *b);
    true
}

} // verus!
