//! The boundary to the random number generator.
//!
//! Randomness comes from `rand`'s standard generator. The library treats a
//! drawn value as arbitrary within its stated range: everything computed from
//! it is verified for every value the range admits.

use vstd::prelude::*;

verus! {

/// `rand::rngs::StdRng`, declared so that a generator can be carried in the
/// spawner's state. Its inner state is opaque to the library.
#[verifier::external_type_specification]
#[verifier::external_body]
pub struct ExStdRng(rand::rngs::StdRng);

/// Relies on `rand::SeedableRng::seed_from_u64` for `rand::rngs::StdRng`:
/// builds a generator from a 64-bit seed. Nothing is assumed of the
/// generator's state; equal seeds give generators that replay the same draws,
/// which only the tests observe.
#[verifier::external_body]
pub fn rng_from_seed(seed: u64) -> rand::rngs::StdRng {
    <rand::rngs::StdRng as rand::SeedableRng>::seed_from_u64(seed)
}

/// Relies on `rand::RngExt::random_range` over the half-open range
/// `0..bound`: the draw lies below `bound`, and the call panics only on an
/// empty range, which the precondition rules out. Nothing more is assumed of
/// the value drawn.
#[verifier::external_body]
pub fn rand_below(rng: &mut rand::rngs::StdRng, bound: u32) -> (r: u32)
    requires
        bound >= 1,
    ensures
        r < bound,
{
    <rand::rngs::StdRng as rand::RngExt>::random_range(rng, 0..bound)
}

} // verus!
