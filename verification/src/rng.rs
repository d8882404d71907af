//! The seeded pseudo-random source every generator draws from.
//!
//! All randomness flows through `rand::rngs::StdRng`; nothing is promised of
//! the values drawn beyond their ranges, so everything proved downstream
//! holds for every outcome of every draw.

use vstd::prelude::*;
use rand::Rng;
use rand::RngCore;
use rand::SeedableRng;
use rand::seq::IteratorRandom;
use rand::rngs::StdRng;

verus! {

#[verifier::external_type_specification]
#[verifier::external_body]
pub struct ExStdRng(StdRng);

/// Relies on rand's `StdRng::seed_from_u64`: builds a generator from a seed;
/// never fails.
#[verifier::external_body]
pub(crate) fn rng_from_seed(seed: u64) -> StdRng {
    StdRng::seed_from_u64(seed)
}

/// Relies on rand's `RngCore::next_u64`: returns some 64-bit value; nothing
/// can be promised of it.
#[verifier::external_body]
pub(crate) fn rng_next_u64(rng: &mut StdRng) -> u64 {
    rng.next_u64()
}

/// Relies on rand's `Rng::gen_range` over an inclusive range: panics only on
/// an empty range, and returns a member of the range.
#[verifier::external_body]
pub(crate) fn rng_range(rng: &mut StdRng, low: usize, high: usize) -> (n: usize)
    requires
        low <= high,
    ensures
        low <= n <= high,
{
    rng.gen_range(low..=high)
}

/// Relies on rand's `IteratorRandom::choose_multiple` over `0..n`: reservoir
/// sampling keeps exactly `k` of the `n` pairwise-distinct iterator elements
/// when `k <= n`, each element landing in at most one slot.
#[verifier::external_body]
pub(crate) fn rng_sample_indices(rng: &mut StdRng, n: usize, k: usize) -> (r: Vec<usize>)
    requires
        k <= n,
    ensures
        r@.len() == k,
        forall|i: int| 0 <= i < r@.len() ==> #[trigger] r@[i] < n,
        forall|i: int, j: int| 0 <= i < j < r@.len() ==> r@[i] != r@[j],
{
    (0..n).choose_multiple(rng, k)
}

} // verus!
