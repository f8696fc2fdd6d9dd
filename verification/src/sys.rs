//! The two ambient inputs of the engine: the wall clock and the random
//! source used for child-order jitter. Every contract in the crate holds
//! for every value these can return.

use vstd::prelude::*;

verus! {

/// Relies on rand's `Rng::gen_range` over the inclusive range `0..=bound`:
/// it returns a uniformly distributed value within that range (the range is
/// never empty, so the call cannot panic). Nothing beyond the range is
/// assumed: every caller's contract holds for every outcome.
#[verifier::external_body]
pub(crate) fn rand_upto(bound: u64) -> (r: u64)
    ensures
        r <= bound,
{
    rand::Rng::gen_range(&mut rand::thread_rng(), 0..=bound)
}

/// Relies on std's `SystemTime`: milliseconds elapsed since the UNIX epoch,
/// truncated to 64 bits, or 0 when the system clock reads earlier than the
/// epoch. The result depends on the wall clock, so nothing is assumed of it;
/// every caller's contract holds for every outcome.
#[verifier::external_body]
pub(crate) fn now_epoch_millis() -> (r: u64)
{
    match std::time::SystemTime::now().duration_since(std::time::SystemTime::UNIX_EPOCH) {
        Ok(duration) => duration.as_millis() as u64,
        Err(_) => 0,
    }
}

} // verus!
