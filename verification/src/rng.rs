//! The random choice used for picking a canned reply, read through rand.
//! Nothing is assumed of which index comes back, only that it is in range,
//! so every caller is verified for every possible choice.

use vstd::prelude::*;

verus! {

/// Relies on rand's `random_range` over `0..n`: a value below `n`, chosen
/// by the thread-local generator.  `random_range` panics on an empty
/// range, so `n` must be positive.
#[verifier::external_body]
pub fn pick_index(n: usize) -> (r: usize)
    requires
        n >= 1,
    ensures
        r < n,
{
    rand::random_range(0..n)
}

} // verus!
