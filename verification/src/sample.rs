//! The single entry point to the random number generator.

use vstd::prelude::*;

verus! {

/// Relies on rand::Rng::gen_range over the half-open range `0..n`, on the
/// thread-local generator: the draw is uniform over the range, and the call
/// panics only when the range is empty, which `0 < n` rules out. The
/// generator itself can still abort if the operating system's entropy
/// source fails when it is first seeded or reseeded; that failure is
/// environmental and independent of the input.
#[verifier::external_body]
pub(crate) fn sample_below(n: usize) -> (r: usize)
    requires
        0 < n,
    ensures
        r < n,
{
    rand::Rng::gen_range(&mut rand::thread_rng(), 0..n)
}

} // verus!
