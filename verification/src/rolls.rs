//! Percentile rolls drawn from a seeded random number generator.
use rand::rngs::StdRng;
use rand::Rng;
use vstd::prelude::*;

verus! {

/// The standard seeded generator of the `rand` crate, carried through unchanged.
#[verifier::external_type_specification]
#[verifier::external_body]
pub struct ExStdRng(StdRng);

/// Draws a value with `rand::Rng::gen_range(0..100)`. The `rand` documentation
/// promises a value in the half-open range, so the result is below 100; which value
/// comes out depends on the generator's state and is not stated.
#[verifier::external_body]
pub fn roll_percentile(rng: &mut StdRng) -> (r: u8)
    ensures
        r < 100,
{
    rng.gen_range(0..100u8)
}

} // verus!
