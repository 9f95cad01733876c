//! Source of randomness for prescription generation and reliability
//! sampling.

use rand::Rng;
use vstd::prelude::*;

verus! {

/// Relies on `rand::thread_rng` and `rand::Rng::gen_range` on the range
/// `lo..hi`: the draw is uniformly distributed in that half-open range.
/// `gen_range` panics only on an empty range, which the precondition rules
/// out.  Nothing more can be promised of a random draw, so callers state
/// what holds of every outcome.
#[verifier::external_body]
pub(crate) fn draw(lo: u64, hi: u64) -> (r: u64)
    requires
        lo < hi,
    ensures
        lo <= r < hi,
{
    rand::thread_rng().gen_range(lo..hi)
}

} // verus!
