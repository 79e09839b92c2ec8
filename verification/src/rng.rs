//! The random draws that shell choice makes, taken from `rand`'s thread-local
//! generator. Only what holds of every outcome is stated.
use vstd::prelude::*;
use rand::Rng;
use rand::rngs::ThreadRng;

verus! {

/// `rand`'s thread-local generator, carried through as an opaque value.
#[verifier::external_type_specification]
#[verifier::external_body]
pub struct ExThreadRng(ThreadRng);

/// Calls `rand::Rng::gen_range` on `low..high`. `rand` documents that the
/// value lies in the half-open range and that the call panics on an empty
/// range, which `requires` excludes; which value comes out is chance.
#[verifier::external_body]
pub(crate) fn roll_range(rng: &mut ThreadRng, low: u32, high: u32) -> (r: u32)
    requires
        low < high,
    ensures
        low <= r < high,
{
    rng.gen_range(low..high)
}

/// Calls `rand::Rng::gen_ratio`, true with probability
/// `numerator / denominator`. `rand` documents that the call panics when the
/// denominator is zero or the numerator exceeds it (excluded here), that a
/// zero numerator always gives `false` and a full ratio always gives `true`.
#[verifier::external_body]
pub(crate) fn chance(rng: &mut ThreadRng, numerator: u32, denominator: u32) -> (r: bool)
    requires
        0 < denominator,
        numerator <= denominator,
    ensures
        numerator == 0 ==> !r,
        numerator == denominator ==> r,
{
    rng.gen_ratio(numerator, denominator)
}

} // verus!
