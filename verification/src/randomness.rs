//! The library's single source of randomness: one uniform draw below a
//! bound, used by stochastic production to pick a replacement.

use vstd::prelude::*;

verus! {

/// Relies on rand's `Rng::gen_range` on the thread-local generator: for a
/// non-empty range `0..bound` it returns a value of that range.  Nothing
/// more is assumed of the draw; callers state what holds of every outcome.
#[verifier::external_body]
pub(crate) fn random_below(bound: u32) -> (r: u32)
    requires
        bound > 0,
    ensures
        r < bound,
{
    rand::Rng::gen_range(&mut rand::thread_rng(), 0..bound)
}

} // verus!
