//! The random sources: a seeded generator, which gives the same draws for the
//! same seed, and the generator of the running thread, of which only the range
//! of a draw is known.

use nannou::rand::distributions::Uniform;
use nannou::rand::rngs::StdRng;
use nannou::rand::{Rng, SeedableRng};
use vstd::prelude::*;

verus! {

/// The first `count` draws, uniform on `[low, high)`, of a `StdRng` that was
/// seeded with `seed`. The generator is a ChaCha cipher whose stream depends
/// on the seed alone, so the draws are the same wherever they are made with
/// the same build of the generator.
pub uninterp spec fn seeded_draws(seed: u64, count: usize, low: i64, high: i64) -> Seq<i64>;

/// Seeds a `StdRng` with `StdRng::seed_from_u64(seed)` and takes `count`
/// samples of `Uniform::new(low, high)` from it with `Rng::sample_iter`.
/// `Uniform::new` panics unless `low < high`. The contract claims that the
/// samples depend on the four arguments alone, that there are `count` of
/// them, and that each lies in `[low, high)`.
#[verifier::external_body]
pub(crate) fn draw_seeded(seed: u64, count: usize, low: i64, high: i64) -> (draws: Vec<i64>)
    requires
        low < high,
    ensures
        draws@ == seeded_draws(seed, count, low, high),
        draws@.len() == count,
        forall|i: int| 0 <= i < draws@.len() ==> low <= #[trigger] draws@[i] < high,
{
    StdRng::seed_from_u64(seed).sample_iter(Uniform::new(low, high)).take(count).collect()
}

/// Calls `nannou::rand::random_range(low, high)` (which `nannou` takes from
/// `nannou_core`). It puts the two ends in order and calls `gen_range` on the
/// generator of the running thread, which panics on an empty range: hence
/// `low != high`. The contract claims a draw from the half-open range between
/// the smaller and the larger of the two ends, and nothing of which one.
#[verifier::external_body]
pub(crate) fn draw_ambient(low: i64, high: i64) -> (draw: i64)
    requires
        low != high,
    ensures
        low < high ==> low <= draw < high,
        high < low ==> high <= draw < low,
{
    nannou::rand::random_range(low, high)
}

} // verus!
