//! The one place where the library draws randomness, used to build sample
//! entity states.

use vstd::prelude::*;

verus! {

/// Relies on `rand::Rng::gen_range` with `rand::thread_rng`: for a non-empty
/// integer range `lo..hi` it returns a uniformly drawn value inside that
/// range, and panics only on an empty range, which the precondition excludes.
#[verifier::external_body]
pub(crate) fn random_usize_in(lo: usize, hi: usize) -> (r: usize)
    requires
        lo < hi,
    ensures
        lo <= r < hi,
{
    rand::Rng::gen_range(&mut rand::thread_rng(), lo..hi)
}

} // verus!
