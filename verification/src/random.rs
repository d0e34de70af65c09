//! Trusted access to the `rand` crate, for the kernel-panic report
//! generator. Nothing beyond the range of a value can be promised of a
//! random result.

use vstd::prelude::*;

verus! {

/// Relies on rand's `RngExt::random_range` over `lo..hi`: a value of the
/// range, uniformly drawn. The call panics only on an empty range, which
/// the precondition rules out.
#[verifier::external_body]
pub(crate) fn random_in(lo: u64, hi: u64) -> (r: u64)
    requires
        lo < hi,
    ensures
        lo <= r < hi,
{
    rand::RngExt::random_range(&mut rand::rng(), lo..hi)
}

/// Relies on `rand::random`: an arbitrary `u64`.
#[verifier::external_body]
pub(crate) fn random_u64() -> u64 {
    rand::random::<u64>()
}

} // verus!
