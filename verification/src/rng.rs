//! The process-wide randomness source, behind one trusted wrapper. The
//! resolver's fallback and the synthetic response values draw from it.

use vstd::prelude::*;

verus! {

/// Relies on rand's `rng` and `Rng::random_range` over `lo..hi`: a value
/// drawn uniformly from a non-empty half-open range lies within it, and the
/// thread-local generator is safe to use from concurrent handlers.
#[verifier::external_body]
pub(crate) fn random_below(lo: usize, hi: usize) -> (r: usize)
    requires
        lo < hi,
    ensures
        lo <= r < hi,
{
    rand::Rng::random_range(&mut rand::rng(), lo..hi)
}

} // verus!
