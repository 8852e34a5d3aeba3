use vstd::prelude::*;

verus! {

/// Relies on rand::random_range over `0..n`: a uniform sample below `n`.
/// rand panics on an empty range, so `n` must be positive.  Nothing more can
/// be promised of a random draw than its range.
#[verifier::external_body]
pub(crate) fn random_u64_below(n: u64) -> (r: u64)
    requires
        n > 0,
    ensures
        r < n,
{
    rand::random_range(0..n)
}

} // verus!
