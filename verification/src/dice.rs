//! The random draws the game consumes: one uniform draw from a half-open
//! range, and the two-dice roll built from it.

use rand::Rng;
use vstd::prelude::*;

verus! {

/// Relies on rand::thread_rng and rand::Rng::gen_range: a draw from the
/// half-open range `lo..hi` lies in that range; the range must be non-empty,
/// as gen_range panics on an empty one.
#[verifier::external_body]
pub(crate) fn draw_in_range(lo: usize, hi: usize) -> (r: usize)
    requires
        lo < hi,
    ensures
        lo <= r < hi,
{
    rand::thread_rng().gen_range(lo..hi)
}

/// Draws one value from each of the two given dice ranges.
///
/// The game calls this with `1..7` twice, so each die shows a face in
/// `[1, 6]`; the ranges must be non-empty.
pub fn roll_two_dice(dice1: core::ops::Range<usize>, dice2: core::ops::Range<usize>) -> (r: (
    usize,
    usize,
))
    requires
        dice1.start < dice1.end,
        dice2.start < dice2.end,
    ensures
        dice1.start <= r.0 < dice1.end,
        dice2.start <= r.1 < dice2.end,
{
    (draw_in_range(dice1.start, dice1.end), draw_in_range(dice2.start, dice2.end))
}

} // verus!
