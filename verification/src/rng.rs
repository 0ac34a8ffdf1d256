//! Trusted wrappers around the crate's only sources of randomness.
//!
//! Nothing can be promised of a drawn number, so these carry no
//! `ensures`; every function that consumes a draw takes it as a plain
//! argument and is verified for each value it could take.

use vstd::prelude::*;

verus! {

#[verifier::external_type_specification]
#[verifier::external_body]
pub struct ExChaCha8Rng(rand_chacha::ChaCha8Rng);

/// Relies on rand::random: one unseeded draw from the thread generator.
/// The generator's first use in a thread can abort only if the
/// operating system's entropy source fails; no input reaches that path.
#[verifier::external_body]
pub fn random_u64() -> u64 {
    rand::random::<u64>()
}

/// Relies on SeedableRng::seed_from_u64 for ChaCha8Rng: a generator
/// state derived from the seed alone.
#[verifier::external_body]
pub fn rng_from_seed(seed: u64) -> rand_chacha::ChaCha8Rng {
    <rand_chacha::ChaCha8Rng as rand::SeedableRng>::seed_from_u64(seed)
}

/// Relies on Rng::next_u64 for ChaCha8Rng: the generator's next word.
#[verifier::external_body]
pub fn rng_next_u64(rng: &mut rand_chacha::ChaCha8Rng) -> u64 {
    rand::Rng::next_u64(rng)
}

} // verus!
