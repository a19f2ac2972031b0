//! Owned fixed-size buffers: construction and whole-buffer fills.
use vstd::prelude::*;

verus! {

/// A buffer of `n` copies of `c`.
pub fn filled_u8(n: usize, c: u8) -> (v: Vec<u8>)
    ensures
        v@.len() == n,
        forall|j: int| 0 <= j < n ==> #[trigger] v@[j] == c,
{
    let mut v: Vec<u8> = Vec::with_capacity(n);
    let mut i: usize = 0;
    while i < n
        invariant
            0 <= i <= n,
            v@.len() == i,
            forall|j: int| 0 <= j < i ==> #[trigger] v@[j] == c,
        decreases n - i,
    {
        v.push(c);
        i += 1;
    }
    v
}

/// A buffer of `n` copies of `c`.
pub fn filled_u32(n: usize, c: u32) -> (v: Vec<u32>)
    ensures
        v@.len() == n,
        forall|j: int| 0 <= j < n ==> #[trigger] v@[j] == c,
{
    let mut v: Vec<u32> = Vec::with_capacity(n);
    let mut i: usize = 0;
    while i < n
        invariant
            0 <= i <= n,
            v@.len() == i,
            forall|j: int| 0 <= j < i ==> #[trigger] v@[j] == c,
        decreases n - i,
    {
        v.push(c);
        i += 1;
    }
    v
}

/// Overwrite every element of `v` with `c`.
pub fn fill_u32(v: &mut Vec<u32>, c: u32)
    ensures
        final(v)@.len() == old(v)@.len(),
        forall|j: int| 0 <= j < final(v)@.len() ==> #[trigger] final(v)@[j] == c,
{
    let mut i: usize = 0;
    while i < v.len()
        invariant
            0 <= i <= v@.len(),
            v@.len() == old(v)@.len(),
            forall|j: int| 0 <= j < i ==> #[trigger] v@[j] == c,
        decreases v@.len() - i,
    {
        v.set(i, c);
        i += 1;
    }
}

} // verus!
