//! The random source. Everything here belongs to the `rand` crate and is
//! taken on trust: each contract restates what that crate documents of the
//! call and nothing is proved of it.

use vstd::prelude::*;
use rand::rngs::ThreadRng;
use rand::seq::SliceRandom;
use rand::Rng;

verus! {

/// `rand::rngs::ThreadRng`, the handle to the generator of the calling
/// thread. Its state is hidden: no contract speaks of what it will yield.
#[verifier::external_type_specification]
#[verifier::external_body]
pub struct ExThreadRng(ThreadRng);

/// `rand::thread_rng`: the generator of the calling thread, seeded by the
/// system on first use. Nothing is claimed of the handle. `rand` panics
/// where the system has no entropy to seed it with, which no argument can
/// rule out.
pub assume_specification[ rand::thread_rng ]() -> (rng: ThreadRng);

/// `Rng::gen_range` on the inclusive range `low..=high` of `u8`. The range
/// must not be empty, on which `rand` panics; the value drawn lies within
/// it. Which value comes out is left open.
#[verifier::external_body]
pub(crate) fn gen_range_inclusive(rng: &mut ThreadRng, low: u8, high: u8) -> (n: u8)
    requires
        low <= high,
    ensures
        low <= n <= high,
{
    rng.gen_range(low..=high)
}

/// `Rng::gen_ratio`: a coin that shows `true` with probability
/// `numerator / denominator`. `rand` panics on a zero denominator and on a
/// numerator above it. Only the two certain cases are stated: a zero
/// numerator never hits, a numerator equal to the denominator always does.
#[verifier::external_body]
pub(crate) fn gen_ratio(rng: &mut ThreadRng, numerator: u32, denominator: u32) -> (hit: bool)
    requires
        0 < denominator,
        numerator <= denominator,
    ensures
        numerator == 0 ==> !hit,
        numerator == denominator ==> hit,
{
    rng.gen_ratio(numerator, denominator)
}

/// `SliceRandom::choose` on a slice: `None` for the empty slice, else one of
/// its elements. Which element comes out is left open.
#[verifier::external_body]
pub(crate) fn choose_item<T: Copy>(rng: &mut ThreadRng, pool: &[T]) -> (item: Option<T>)
    ensures
        pool@.len() == 0 ==> item is None,
        pool@.len() > 0 ==> item is Some && pool@.contains(item.unwrap()),
{
    pool.choose(rng).copied()
}

} // verus!
