//! The source of chance.

use rand::Rng;
use vstd::prelude::*;

verus! {

/// Draws a number from `low..high`: calls `rand::thread_rng()` and, on the
/// generator it hands out, `Rng::gen_range` with that range.
///
/// `gen_range` stops the program on an empty range, so the range must hold a
/// number.  What it returns lies in the range.  Which number that is depends
/// on chance, so two calls may differ and the contract says no more.  The
/// generator is seeded by the operating system on its first use in a thread
/// and stops the program if that fails.
#[verifier::external_body]
pub(crate) fn draw_in_range(low: usize, high: usize) -> (drawn: usize)
    requires
        low < high,
    ensures
        low <= drawn < high,
{
    rand::thread_rng().gen_range(low..high)
}

} // verus!
