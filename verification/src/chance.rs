//! Random draws on the thread-local generator of `rand`.
use vstd::prelude::*;
use rand::Rng;

verus! {

/// `rand::Rng::gen_range(low..=high)` on `rand::thread_rng()`: a value from
/// `low` to `high`, both included. The crate panics on an empty range, so
/// `low <= high` is required. Which value comes is left open.
#[verifier::external_body]
pub fn random_in_range(low: u8, high: u8) -> (value: u8)
    requires
        low <= high,
    ensures
        low <= value <= high,
{
    rand::thread_rng().gen_range(low..=high)
}

/// `rand::Rng::gen::<bool>()` on `rand::thread_rng()`: a fair coin toss.
/// Nothing is promised of which side comes up.
#[verifier::external_body]
pub fn random_coin() -> (heads: bool) {
    rand::thread_rng().gen::<bool>()
}

} // verus!
