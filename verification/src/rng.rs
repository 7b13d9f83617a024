//! The random source behind every stochastic decision.
//!
//! Nothing here is proved: each function hands a call to the `rand` crate and states
//! only what that crate documents for every outcome. The decisions taken from
//! the drawn values live in the systems, which are verified for every value a
//! draw may return.

use vstd::prelude::*;
use rand::rngs::SmallRng;
use rand::seq::SliceRandom;
use rand::Rng;
use rand::SeedableRng;

verus! {

#[verifier::external_type_specification]
#[verifier::external_body]
pub struct ExSmallRng(SmallRng);

/// `SmallRng::seed_from_u64`: a generator whose stream is fixed by the seed on a
/// given platform. Nothing is claimed about the stream itself.
#[verifier::external_body]
pub(crate) fn rng_from_seed(seed: u64) -> SmallRng {
    SmallRng::seed_from_u64(seed)
}

/// `Rng::gen_range` on the half-open range `lo..hi`: the draw lies in the range.
/// The crate panics on an empty range, which the precondition rules out.
#[verifier::external_body]
pub(crate) fn rng_range(rng: &mut SmallRng, lo: u64, hi: u64) -> (r: u64)
    requires
        lo < hi,
    ensures
        lo <= r < hi,
{
    rng.gen_range(lo..hi)
}

/// `Rng::gen_ratio`: true with probability `numerator / denominator`; always true
/// when the two are equal and always false when the numerator is zero. The crate
/// panics on a zero denominator or a ratio above one, which the precondition
/// rules out.
#[verifier::external_body]
pub(crate) fn rng_ratio(rng: &mut SmallRng, numerator: u32, denominator: u32) -> (r: bool)
    requires
        denominator > 0,
        numerator <= denominator,
    ensures
        numerator == denominator ==> r,
        numerator == 0 ==> !r,
{
    rng.gen_ratio(numerator, denominator)
}

/// `SliceRandom::shuffle`: reorders the items in place; the same items remain.
#[verifier::external_body]
pub(crate) fn rng_shuffle(rng: &mut SmallRng, items: &mut Vec<usize>)
    ensures
        final(items)@.to_multiset() == old(items)@.to_multiset(),
{
    items.shuffle(rng);
}

/// The seed a system draws from at a tick: `(tick * factor + offset) * spread`,
/// each step wrapping at 64 bits.
pub open spec fn seed_of(tick: u64, factor: u64, offset: u64, spread: u64) -> u64 {
    ((((tick as int * factor as int) % 0x1_0000_0000_0000_0000 + offset as int)
        % 0x1_0000_0000_0000_0000) * spread as int % 0x1_0000_0000_0000_0000) as u64
}

/// Derives the seed a system draws from. The same tick, factor, offset and spread
/// always give the same seed.
pub fn seed(tick: u64, factor: u64, offset: u64, spread: u64) -> (s: u64)
    ensures
        s == seed_of(tick, factor, offset, spread),
{
    tick.wrapping_mul(factor).wrapping_add(offset).wrapping_mul(spread)
}

} // verus!
