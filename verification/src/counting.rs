//! Counting up from zero.

use vstd::prelude::*;

verus! {

/// The numbers `0, 1, ..., n - 1` in order.
pub open spec fn counted(n: nat) -> Seq<u32> {
    Seq::new(n, |i: int| i as u32)
}

/// Counts from zero up to, but not including, `n`.
pub fn count_up(n: u32) -> (counts: Vec<u32>)
    ensures
        counts@ == counted(n as nat),
{
    let mut counts: Vec<u32> = Vec::new();
    let mut i: u32 = 0;
    while i < n
        invariant
            i <= n,
            counts@ =~= counted(i as nat),
        decreases n - i,
    {
        counts.push(i);
        i += 1;
    }
    counts
}

} // verus!
