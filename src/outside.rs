use vstd::prelude::*;
use rand::Rng;

verus! {

/// Relies on rand's `Rng::gen_range` over the thread-local generator: a number
/// drawn uniformly from `0..n`, which must not be empty.
#[verifier::external_body]
pub(crate) fn uniform_below(n: usize) -> (r: usize)
    requires
        n > 0,
    ensures
        r < n,
{
    rand::thread_rng().gen_range(0..n)
}

/// Relies on chrono's `Utc::now().timestamp_millis()`: the wall clock in
/// milliseconds since the Unix epoch, which may be anything.
#[verifier::external_body]
pub(crate) fn utc_now_millis() -> (r: i64) {
    chrono::Utc::now().timestamp_millis()
}

} // verus!
