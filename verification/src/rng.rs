use rand::Rng;
use vstd::prelude::*;

verus! {

/// Relies on `rand::thread_rng` and `rand::Rng::gen_range` over a half-open
/// `i64` range: the sample lies in `[lo, hi)`, and the call panics only on an
/// empty range, which the precondition rules out. Nothing more is assumed of
/// the value: every draw may differ.
#[verifier::external_body]
pub(crate) fn rand_i64_in(lo: i64, hi: i64) -> (r: i64)
    requires
        lo < hi,
    ensures
        lo <= r < hi,
{
    rand::thread_rng().gen_range(lo..hi)
}

/// Relies on `rand::thread_rng` and `rand::Rng::gen_range` over an inclusive
/// `i64` range: the sample lies in `[lo, hi]`, and the call panics only on an
/// empty range, which the precondition rules out.
#[verifier::external_body]
pub(crate) fn rand_i64_in_inclusive(lo: i64, hi: i64) -> (r: i64)
    requires
        lo <= hi,
    ensures
        lo <= r <= hi,
{
    rand::thread_rng().gen_range(lo..=hi)
}

} // verus!
