use vstd::prelude::*;

verus! {

/// Draws a number uniformly from `0..bound` with `rand::random_range` on the
/// thread-local generator. The contract claims only that the number lies in
/// the range, which holds of every draw; `random_range` panics on an empty
/// range, which `requires` leaves out.
#[verifier::external_body]
pub(crate) fn random_below(bound: u64) -> (r: u64)
    requires
        bound > 0,
    ensures
        r < bound,
{
    rand::random_range(0..bound)
}

} // verus!
