//! The pseudo-random source behind the perturbation operator.
//!
//! The generator is rand_xoshiro's `Xoshiro256PlusPlus`, driven through
//! rand's uniform integer distribution. Values of the generator are opaque
//! here: the library only creates one, draws bounded integers from it, and
//! keeps it behind a lock (see [`crate::anneal`]). Nothing is assumed about
//! the drawn values beyond the range the distribution guarantees.

use rand::distributions::Uniform;
use rand::Rng;
use rand_xoshiro::rand_core::SeedableRng;
use rand_xoshiro::Xoshiro256PlusPlus;
use vstd::prelude::*;

verus! {

/// Declares rand_xoshiro's `Xoshiro256PlusPlus` so that generator values can
/// be stored and passed around; the library never looks inside one.
#[verifier::external_type_specification]
#[verifier::external_body]
pub struct ExXoshiro(Xoshiro256PlusPlus);

/// Relies on `SeedableRng::from_entropy` for `Xoshiro256PlusPlus`: a fresh
/// generator seeded from the operating system's entropy source. Nothing can
/// be promised about its state. Panics only if the operating system cannot
/// provide entropy.
#[verifier::external_body]
pub(crate) fn rng_from_entropy() -> (r: Xoshiro256PlusPlus) {
    Xoshiro256PlusPlus::from_entropy()
}

/// Relies on `SeedableRng::seed_from_u64` for `Xoshiro256PlusPlus`: a
/// generator in a deterministic state derived from the given seed.
#[verifier::external_body]
pub(crate) fn rng_from_seed(seed: u64) -> (r: Xoshiro256PlusPlus) {
    Xoshiro256PlusPlus::seed_from_u64(seed)
}

/// Relies on `rand::distributions::Uniform` and `Rng::sample`: sampling the
/// uniform distribution over `0..n` yields a value strictly below `n`.
/// `Uniform::new` panics on an empty range, hence `n` must be at least one.
#[verifier::external_body]
pub(crate) fn sample_below(rng: &mut Xoshiro256PlusPlus, n: usize) -> (r: usize)
    requires
        n >= 1,
    ensures
        r < n,
{
    rng.sample(Uniform::from(0..n))
}

} // verus!
