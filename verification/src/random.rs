//! The random draws the game's rules make, through the `rand` crate.

use vstd::prelude::*;
use rand::Rng;

verus! {

#[verifier::external_type_specification]
#[verifier::external_body]
pub struct ExSmallRng(rand::rngs::SmallRng);

/// Calls `rand::Rng::gen_range` with the half-open range `lo..hi` of `usize`.
/// Trusted to return a value in that range; which one is left to chance.
/// `gen_range` panics on an empty range, which `requires` leaves out.
#[verifier::external_body]
pub(crate) fn random_below(rng: &mut rand::rngs::SmallRng, lo: usize, hi: usize) -> (r: usize)
    requires
        lo < hi,
    ensures
        lo <= r < hi,
{
    rng.gen_range(lo..hi)
}

/// Calls `rand::Rng::gen_ratio`, which is true with chance
/// `numerator / denominator`. Trusted, as its documentation says, to return
/// false when the numerator is 0 and true when it equals the denominator;
/// otherwise the outcome is left to chance. It panics when the denominator is
/// 0 or below the numerator, which `requires` leaves out.
///
/// rand builds this draw from the same threshold as `gen_bool` on the
/// quotient, so `gen_ratio(n, d)` draws as `gen_bool(n as f64 / d as f64)`.
#[verifier::external_body]
pub(crate) fn random_ratio(rng: &mut rand::rngs::SmallRng, numerator: u32, denominator: u32) -> (b:
    bool)
    requires
        0 < denominator,
        numerator <= denominator,
    ensures
        numerator == 0 ==> !b,
        numerator == denominator ==> b,
{
    rng.gen_ratio(numerator, denominator)
}

} // verus!
