//! Randomness, drawn through the `rand` crate. Nothing is assumed of a
//! sample beyond membership in the requested range.
use vstd::prelude::*;
use rand::RngExt;

verus! {

/// Relies on rand's `RngExt::random_range` over `lo..hi`: the sample lies
/// in the range. The function panics only on an empty range, which the
/// precondition rules out.
#[verifier::external_body]
pub(crate) fn random_in_range(lo: u16, hi: u16) -> (r: u16)
    requires
        lo < hi,
    ensures
        lo <= r < hi,
{
    rand::rng().random_range(lo..hi)
}

} // verus!
