//! The two sources of chance the simulation draws on.

use vstd::prelude::*;

verus! {

/// Draws an index below `n` from `rand`'s thread-local generator
/// (`rand::rng().random_range(0..n)`).
///
/// Trusted: the drawn value lies in the half-open range handed over. An empty
/// range makes the generator panic, so `n` must be positive. Nothing else is
/// claimed: two draws with the same `n` may differ.
#[verifier::external_body]
pub(crate) fn random_index(n: usize) -> (r: usize)
    requires
        n > 0,
    ensures
        r < n,
{
    rand::Rng::random_range(&mut rand::rng(), 0..n)
}

/// Draws a value in `low..high` from macroquad's process-wide generator
/// (`macroquad::rand::gen_range(low, high)`).
///
/// Trusted: the generator scales a 32-bit draw into `[0, 1)` and returns
/// `low + (high - low) * draw`, truncated. For the small bounds admitted here
/// that arithmetic is exact in double precision, so the value lies in
/// `low..high`. Which value comes back depends on every earlier draw in the
/// process.
#[verifier::external_body]
pub(crate) fn quad_index(low: usize, high: usize) -> (r: usize)
    requires
        low < high <= 0x10000,
    ensures
        low <= r < high,
{
    macroquad::rand::gen_range(low, high)
}

} // verus!
