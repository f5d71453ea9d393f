//! Small shared arithmetic helpers for charm operations.

use vstd::prelude::*;

verus! {

/// Doubles `n`.
pub fn calc(n: u64) -> (r: u64)
    requires
        2 * n <= u64::MAX,
    ensures
        r == 2 * n,
{
    2 * n
}

} // verus!
