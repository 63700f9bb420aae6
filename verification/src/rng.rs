//! Random draws for playouts and build generation.
//!
//! The simulator keeps all of its decision logic in verified code; only the
//! raw draws come from the `rand` crate, through the trusted wrappers below.
//! Each wrapper states no more than `rand` documents: the range of the draw.

use vstd::prelude::*;
use crate::SCALE;

verus! {

#[verifier::external_type_specification]
#[verifier::external_body]
pub struct ExSmallRng(rand::rngs::SmallRng);

/// Relies on rand's `SeedableRng::from_entropy` for `SmallRng`: builds a
/// generator from operating-system entropy.  Nothing is claimed about it.
#[verifier::external_body]
pub(crate) fn rng_from_entropy() -> rand::rngs::SmallRng {
    <rand::rngs::SmallRng as rand::SeedableRng>::from_entropy()
}

/// Relies on rand's `Rng::gen_range` over `0..SCALE`: the draw lies below
/// `SCALE`.  The range is never empty, so the call cannot panic.
#[verifier::external_body]
pub(crate) fn draw_unit(rng: &mut rand::rngs::SmallRng) -> (r: u64)
    ensures
        r < SCALE,
{
    rand::Rng::gen_range(rng, 0..SCALE)
}

/// Relies on rand's `Rng::gen_range` over `0..n`: the draw lies below `n`.
/// `gen_range` panics on an empty range, so `n` must be positive.
#[verifier::external_body]
pub(crate) fn draw_index(rng: &mut rand::rngs::SmallRng, n: usize) -> (r: usize)
    requires
        n > 0,
    ensures
        r < n,
{
    rand::Rng::gen_range(rng, 0..n)
}

/// Roll an independent chance given in micro-units.  The outcome is random,
/// but an impossible roll always fails and a certain one always succeeds.
pub(crate) fn roll(rng: &mut rand::rngs::SmallRng, chance: u64) -> (b: bool)
    ensures
        chance == 0 ==> !b,
        chance >= SCALE ==> b,
{
    let d = draw_unit(rng);
    d < chance
}

} // verus!
