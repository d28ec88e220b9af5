//! The one source of randomness.

use vstd::prelude::*;

verus! {

/// Draws a whole number through `macroquad::rand::gen_range`, which scales
/// the next output of the process-wide generator into the span from `low` to
/// `high` in double precision and cuts the fraction off. For 16-bit ends
/// every step of that is exact, so the number drawn is at least `low` and
/// below `high`. Which number comes is not stated: it depends on the
/// generator's state.
#[verifier::external_body]
pub(crate) fn draw(low: u16, high: u16) -> (drawn: u16)
    requires
        low < high,
    ensures
        low <= drawn < high,
{
    macroquad::rand::gen_range(low, high)
}

} // verus!
