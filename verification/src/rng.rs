//! The library's single source of randomness, behind one trusted wrapper.

use vstd::prelude::*;
use rand::Rng;

verus! {

/// Relies on `rand::Rng::gen_range` on the thread-local generator: it
/// returns a value drawn uniformly from the inclusive range and panics only
/// when the range is empty, which the precondition rules out. Nothing more
/// is promised: every draw may differ from the last.
#[verifier::external_body]
pub(crate) fn rand_between(lo: i64, hi: i64) -> (r: i64)
    requires
        lo <= hi,
    ensures
        lo <= r <= hi,
{
    rand::thread_rng().gen_range(lo..=hi)
}

} // verus!
