//! The random draws that the strategies make, on a generator that the caller
//! hands in.
use rand::rngs::StdRng;
use rand::Rng;
use rand::SeedableRng;
use vstd::prelude::*;

verus! {

/// The generator of `rand` that the caller seeds and hands in. The contracts
/// see nothing of what it holds.
#[verifier::external_type_specification]
#[verifier::external_body]
pub struct ExStdRng(rand::rngs::StdRng);

/// Calls `Rng::gen_ratio`, which returns `true` with a probability of
/// `numerator` in `denominator`. Believed of it: a chance of zero never gives
/// `true`, and a chance of one always does.
#[verifier::external_body]
pub(crate) fn draw_ratio(rng: &mut StdRng, numerator: u32, denominator: u32) -> (hit: bool)
    requires
        denominator > 0,
        numerator <= denominator,
    ensures
        numerator == 0 ==> !hit,
        numerator == denominator ==> hit,
{
    rng.gen_ratio(numerator, denominator)
}

/// Calls `Rng::gen_range` on the closed range from `low` to `high`. Believed
/// of it: the value drawn lies in that range.
#[verifier::external_body]
pub(crate) fn draw_between(rng: &mut StdRng, low: i32, high: i32) -> (value: i32)
    requires
        low <= high,
    ensures
        low <= value <= high,
{
    rng.gen_range(low..=high)
}

/// Calls `SeedableRng::from_entropy`, which seeds a generator from the
/// operating system and stops the program where that gives no entropy.
/// Nothing is claimed of the generator.
#[verifier::external_body]
pub(crate) fn fresh_generator() -> (rng: StdRng) {
    StdRng::from_entropy()
}

} // verus!
