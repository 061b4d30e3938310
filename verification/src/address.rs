//! Hardware addresses of adapters and devices.

use vstd::prelude::*;

verus! {

/// A Bluetooth hardware address: six bytes, most significant first.
pub type Address = [u8; 6];

/// Whether two addresses hold the same six bytes.
pub fn address_eq(a: &Address, b: &Address) -> (same: bool)
    ensures
        same == (*a == *b),
{
    let mut i: usize = 0;
    while i < 6
        invariant
            i <= 6,
            forall|k: int| 0 <= k < i ==> a@[k] == b@[k],
        decreases 6 - i,
    {
        if a[i] != b[i] {
            return false;
        }
        i += 1;
    }
    assert(a@ =~= b@);
    assert(*a =~= *b);
    true
}

} // verus!
