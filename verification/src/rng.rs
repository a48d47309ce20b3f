use vstd::prelude::*;
use rand::Rng;

verus! {

/// Relies on `rand::thread_rng` and `rand::Rng::gen_range` over an inclusive
/// integer range: the draw lies in `[lo, hi]`, and the call panics only on an
/// empty range, which the precondition rules out. Nothing more is promised:
/// the result depends on the generator's state, so two calls on equal inputs
/// may differ.
#[verifier::external_body]
pub(crate) fn rand_between(lo: i64, hi: i64) -> (r: i64)
    requires
        lo <= hi,
    ensures
        lo <= r <= hi,
{
    rand::thread_rng().gen_range(lo..=hi)
}

} // verus!
