//! The random source of the game: `rand`'s standard generator, reached only
//! through the trusted items below.

use vstd::prelude::*;
use rand::Rng;
use rand::SeedableRng;

verus! {

/// `rand::rngs::StdRng`, opaque to verification: it is only carried and
/// handed back to `rand`.
#[verifier::external_type_specification]
#[verifier::external_body]
pub struct ExStdRng(rand::rngs::StdRng);

/// The generator that `StdRng::seed_from_u64` builds from `seed`. `rand`
/// expands the seed with a fixed PCG32 step into a ChaCha12 key, so one seed
/// always gives the same generator; nothing else is known of it here.
pub uninterp spec fn seeded_generator(seed: u64) -> rand::rngs::StdRng;

/// Trusted: `SeedableRng::seed_from_u64` on `StdRng`. The generator it builds
/// is the one named by `seeded_generator(seed)`: a function of the seed alone.
#[verifier::external_body]
pub(crate) fn seeded_rng(seed: u64) -> (r: rand::rngs::StdRng)
    ensures
        r == seeded_generator(seed),
{
    rand::rngs::StdRng::seed_from_u64(seed)
}

/// Trusted: `rand::random::<u64>()`, a seed drawn from the thread-local
/// generator. Nothing is claimed of the value.
#[verifier::external_body]
pub(crate) fn random_seed() -> u64 {
    rand::random::<u64>()
}

/// Trusted: `Rng::gen_range(rng, 0..hi)` on `i32`. `rand` documents that it
/// panics on an empty range (hence `hi > 0`) and otherwise returns a value
/// of the range; which one is left to the generator.
#[verifier::external_body]
pub(crate) fn gen_below(rng: &mut rand::rngs::StdRng, hi: i32) -> (r: i32)
    requires
        hi > 0,
    ensures
        0 <= r < hi,
{
    rng.gen_range(0..hi)
}

} // verus!
