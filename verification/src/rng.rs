//! The one point where the library draws randomness from the outside world.

use rand::RngExt;
use vstd::prelude::*;

verus! {

/// Relies on `rand::rng` and `rand::RngExt::random_range` over a half-open
/// `i64` range: the sample lies in `[lo, hi)`, and the call panics only on an
/// empty range, which the precondition rules out. Nothing more is assumed of
/// which value comes back.
#[verifier::external_body]
pub(crate) fn random_in(lo: i64, hi: i64) -> (r: i64)
    requires
        lo < hi,
    ensures
        lo <= r < hi,
{
    rand::rng().random_range(lo..hi)
}

} // verus!
