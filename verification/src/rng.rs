//! The randomness source for the randomised species (Water, Agitated,
//! Electricity): one draw of a uniformly distributed direction per tick.

use vstd::prelude::*;
use rand::Rng;

verus! {

/// Relies on rand::Rng::gen_range, called on rand::thread_rng with the
/// half-open range `[0, n)`: the result is always strictly below `n`, and
/// the call panics only when the range is empty, which the precondition
/// rules out. Nothing more is assumed of the draw.
#[verifier::external_body]
pub(crate) fn random_below(n: u32) -> (r: u32)
    requires
        1 <= n,
    ensures
        r < n,
{
    rand::thread_rng().gen_range(0, n)
}

} // verus!
