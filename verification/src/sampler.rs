//! Trusted access to the process's random source. Every random draw the
//! particle field makes goes through these two wrappers; nothing is assumed
//! about which value comes back beyond the bounds the source documents.

use vstd::prelude::*;

verus! {

/// The thread-local random number generator of the `rand` crate, carried
/// through the field's operations as an opaque handle.
#[verifier::external_type_specification]
#[verifier::external_body]
pub struct ExThreadRng(rand::rngs::ThreadRng);

/// Relies on `rand::Rng::gen_range` over `0..bound`: a uniform draw strictly
/// below `bound`. It panics only on an empty range, which the precondition
/// rules out.
#[verifier::external_body]
pub(crate) fn sample_below(rng: &mut rand::rngs::ThreadRng, bound: u64) -> (r: u64)
    requires
        1 <= bound,
    ensures
        r < bound,
{
    rand::Rng::gen_range(rng, 0..bound)
}

/// Relies on `rand::Rng::gen_ratio`: true with probability `num / den`,
/// certainly true when `num == den` and certainly false when `num == 0`.
/// It panics only when `den == 0` or `num > den`, which the precondition
/// rules out.
#[verifier::external_body]
pub(crate) fn sample_ratio(rng: &mut rand::rngs::ThreadRng, num: u32, den: u32) -> (r: bool)
    requires
        1 <= den,
        num <= den,
    ensures
        num == den ==> r,
        num == 0 ==> !r,
{
    rand::Rng::gen_ratio(rng, num, den)
}

} // verus!
