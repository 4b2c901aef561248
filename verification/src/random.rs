//! Draws from a seedable pseudo-random generator.
//!
//! Nothing here is proved: the two functions state what the `rand` crate
//! documents of its own methods, and the rest of the library relies on it.

use rand::Rng;
use vstd::prelude::*;

verus! {

/// The standard generator of the `rand` crate. Its state is hidden.
#[verifier::external_type_specification]
#[verifier::external_body]
pub struct ExStdRng(rand::rngs::StdRng);

/// `Rng::gen_range` on the half-open range `low..high` of `u64`. The method
/// panics on an empty range, which `requires` rules out; otherwise it returns
/// a value of the range. Which one depends on the generator's state, so no
/// more is claimed.
#[verifier::external_body]
pub(crate) fn roll_range(rng: &mut rand::rngs::StdRng, low: u64, high: u64) -> (value: u64)
    requires
        low < high,
    ensures
        low <= value < high,
{
    rng.gen_range(low..high)
}

/// `Rng::gen_ratio`: true with a chance of `numerator` in `denominator`. The
/// method panics on a denominator of zero and on a numerator above the
/// denominator, which `requires` rules out. Its documentation promises
/// `true` where the two are equal and `false` for a numerator of zero; in
/// between the result depends on the generator's state.
#[verifier::external_body]
pub(crate) fn roll_ratio(rng: &mut rand::rngs::StdRng, numerator: u32, denominator: u32) -> (hit:
    bool)
    requires
        denominator > 0,
        numerator <= denominator,
    ensures
        numerator == denominator ==> hit,
        numerator == 0 ==> !hit,
{
    rng.gen_ratio(numerator, denominator)
}

} // verus!
