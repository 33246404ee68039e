//! The engine's one source of chance: a uniform draw from `[0, n)` on the
//! process-wide generator. Nothing can be promised of which value comes back,
//! only that it lies below the bound; every caller is verified for all such
//! values.

use vstd::prelude::*;

verus! {

/// Relies on `rand::Rng::gen_range` on `rand::thread_rng`: a uniformly
/// distributed value in `[0, n)`. The call panics on an empty range, so
/// `n >= 1` is required.
#[verifier::external_body]
pub(crate) fn rand_below(n: u64) -> (r: u64)
    requires
        n >= 1,
    ensures
        r < n,
{
    rand::Rng::gen_range(&mut rand::thread_rng(), 0..n)
}

} // verus!
