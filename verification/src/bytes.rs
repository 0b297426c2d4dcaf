//! Byte strings: comparison, and fixed-size prefixes.

use vstd::prelude::*;

verus! {

/// Whether two byte strings hold the same bytes.
pub fn bytes_equal(a: &[u8], b: &[u8]) -> (same: bool)
    ensures
        same == (a@ == b@),
{
    if a.len() != b.len() {
        return false;
    }
    let mut i: usize = 0;
    while i < a.len()
        invariant
            a@.len() == b@.len(),
            i <= a@.len(),
            forall|k: int| 0 <= k < i ==> a@[k] == b@[k],
        decreases a@.len() - i,
    {
        if a[i] != b[i] {
            return false;
        }
        i += 1;
    }
    assert(a@ =~= b@);
    true
}

/// The first `N` bytes of a byte string that holds at least `N`.
pub fn prefix<const N: usize>(bytes: &[u8]) -> (head: [u8; N])
    requires
        N <= bytes@.len(),
    ensures
        head@ == bytes@.take(N as int),
{
    let mut head: [u8; N] = [0u8; N];
    let mut i: usize = 0;
    while i < N
        invariant
            N <= bytes@.len(),
            i <= N,
            forall|k: int| 0 <= k < i ==> head@[k] == bytes@[k],
        decreases N - i,
    {
        head[i] = bytes[i];
        i += 1;
    }
    assert(head@ =~= bytes@.take(N as int));
    head
}

} // verus!
