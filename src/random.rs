use vstd::prelude::*;

verus! {

/// Seed of the random source of a machine built without one.
pub const DEFAULT_SEED: u64 = 0;

#[verifier::external_type_specification]
#[verifier::external_body]
pub struct ExRng(fastrand::Rng);

/// Relies on fastrand::Rng::with_seed: a generator whose sequence is fixed by `seed`.
#[verifier::external_body]
pub(crate) fn seeded_rng(seed: u64) -> (r: fastrand::Rng) {
    fastrand::Rng::with_seed(seed)
}

/// Relies on fastrand::Rng::u8 over the full range: some byte, and the generator moves on.
/// Nothing is promised of which byte.
#[verifier::external_body]
pub(crate) fn next_byte(rng: &mut fastrand::Rng) -> (r: u8) {
    rng.u8(..)
}

} // verus!
